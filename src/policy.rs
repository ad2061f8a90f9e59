use vstd::prelude::*;

use crate::model::{User, UserPayload, UserRole};

verus! {

/// The operations that only some roles may perform.
#[derive(Clone, Copy, Debug, PartialEq, Eq, Structural)]
pub enum Operation {
    CreateCampaign,
    CreateDonation,
    CreateExpense,
}

/// Which roles may perform which operation.
pub open spec fn permits(op: Operation, role: UserRole) -> bool {
    match op {
        Operation::CreateCampaign => role == UserRole::Admin || role == UserRole::CampaignManager,
        Operation::CreateDonation => role == UserRole::Donor,
        Operation::CreateExpense => role == UserRole::Admin || role == UserRole::CampaignManager,
    }
}

pub fn is_permitted(op: Operation, role: UserRole) -> (r: bool)
    ensures
        r == permits(op, role),
{
    match op {
        Operation::CreateCampaign => match role {
            UserRole::Admin | UserRole::CampaignManager => true,
            UserRole::Donor => false,
        },
        Operation::CreateDonation => match role {
            UserRole::Donor => true,
            UserRole::Admin | UserRole::CampaignManager => false,
        },
        Operation::CreateExpense => match role {
            UserRole::Admin | UserRole::CampaignManager => true,
            UserRole::Donor => false,
        },
    }
}

/// The stored user `u` is the one that the claimed credentials `p` name.
pub open spec fn credentials_match(u: User, p: UserPayload) -> bool {
    u.username@ == p.username@ && u.role == p.role
}

/// Some stored user matches the claimed credentials.
pub open spec fn authenticates(users: Seq<User>, p: UserPayload) -> bool {
    exists|i: int| 0 <= i < users.len() && credentials_match(#[trigger] users[i], p)
}

/// `users[i]` is the first user that matches the claimed credentials.
pub open spec fn first_match(users: Seq<User>, p: UserPayload, i: int) -> bool {
    &&& 0 <= i < users.len()
    &&& credentials_match(users[i], p)
    &&& forall|j: int| 0 <= j < i ==> !credentials_match(#[trigger] users[j], p)
}

/// Some stored user has the username `name`.
pub open spec fn username_in_use(users: Seq<User>, name: Seq<char>) -> bool {
    exists|i: int| 0 <= i < users.len() && (#[trigger] users[i]).username@ == name
}

} // verus!
