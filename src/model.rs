use vstd::prelude::*;

use crate::store::{ChildRecord, Record};

verus! {

/// The role a user holds; fixed when the user is created.
#[derive(Clone, Copy, Debug, PartialEq, Eq, Structural, Hash, Default)]
pub enum UserRole {
    #[default]
    Admin,
    CampaignManager,
    Donor,
}

#[derive(Clone, Debug, PartialEq, Eq)]
pub struct Campaign {
    pub id: u64,
    pub name: String,
    pub description: String,
    pub created_at: u64,
}

#[derive(Clone, Debug, PartialEq, Eq)]
pub struct Donation {
    pub id: u64,
    pub campaign_id: u64,
    pub donor_name: String,
    pub amount: u64,
    pub created_at: u64,
}

#[derive(Clone, Debug, PartialEq, Eq)]
pub struct Expense {
    pub id: u64,
    pub campaign_id: u64,
    pub description: String,
    pub amount: u64,
    pub created_at: u64,
}

/// A voter outreach activity; `status` is free text such as "planned".
#[derive(Clone, Debug, PartialEq, Eq)]
pub struct VoterOutreach {
    pub id: u64,
    pub campaign_id: u64,
    pub activity: String,
    pub date: u64,
    pub status: String,
    pub created_at: u64,
}

#[derive(Clone, Debug, PartialEq, Eq)]
pub struct SecureMessage {
    pub id: u64,
    pub campaign_id: u64,
    pub sender: String,
    pub content: String,
    pub created_at: u64,
}

#[derive(Clone, Debug, PartialEq, Eq)]
pub struct Notification {
    pub id: u64,
    pub campaign_id: u64,
    pub message: String,
    pub created_at: u64,
}

#[derive(Clone, Debug, PartialEq, Eq)]
pub struct User {
    pub id: u64,
    pub username: String,
    pub role: UserRole,
    pub created_at: u64,
}

#[derive(Clone, Debug)]
pub struct CampaignPayload {
    pub name: String,
    pub description: String,
}

#[derive(Clone, Debug)]
pub struct DonationPayload {
    pub campaign_id: u64,
    pub donor_name: String,
    pub amount: u64,
}

#[derive(Clone, Debug)]
pub struct ExpensePayload {
    pub campaign_id: u64,
    pub description: String,
    pub amount: u64,
}

#[derive(Clone, Debug)]
pub struct VoterOutreachPayload {
    pub campaign_id: u64,
    pub activity: String,
    pub date: u64,
    pub status: String,
}

#[derive(Clone, Debug)]
pub struct MessagePayload {
    pub campaign_id: u64,
    pub sender: String,
    pub content: String,
}

/// Changes to a campaign: each field that is `Some` replaces the stored one.
#[derive(Clone, Debug)]
pub struct UpdateCampaignPayload {
    pub id: u64,
    pub name: Option<String>,
    pub description: Option<String>,
}

/// A user to create, or the credentials a caller claims: a username and role.
#[derive(Clone, Debug)]
pub struct UserPayload {
    pub username: String,
    pub role: UserRole,
}

/// The outcome kinds that callers branch on; the text is for people.
#[derive(Clone, Debug, PartialEq, Eq)]
pub enum Message {
    Success(String),
    Error(String),
    NotFound(String),
    InvalidPayload(String),
    UnAuthorized(String),
}

impl CampaignPayload {
    /// Name and description are both given.
    pub open spec fn valid(&self) -> bool {
        self.name@.len() > 0 && self.description@.len() > 0
    }

    pub fn is_valid(&self) -> (r: bool)
        ensures
            r == self.valid(),
    {
        !self.name.as_str().is_empty() && !self.description.as_str().is_empty()
    }
}

impl DonationPayload {
    /// A donor is named and the amount is positive.
    pub open spec fn valid(&self) -> bool {
        self.donor_name@.len() > 0 && self.amount > 0
    }

    pub fn is_valid(&self) -> (r: bool)
        ensures
            r == self.valid(),
    {
        !self.donor_name.as_str().is_empty() && self.amount != 0
    }
}

impl ExpensePayload {
    /// A description is given and the amount is positive.
    pub open spec fn valid(&self) -> bool {
        self.description@.len() > 0 && self.amount > 0
    }

    pub fn is_valid(&self) -> (r: bool)
        ensures
            r == self.valid(),
    {
        !self.description.as_str().is_empty() && self.amount != 0
    }
}

impl VoterOutreachPayload {
    /// Activity and status are both given.
    pub open spec fn valid(&self) -> bool {
        self.activity@.len() > 0 && self.status@.len() > 0
    }

    pub fn is_valid(&self) -> (r: bool)
        ensures
            r == self.valid(),
    {
        !self.activity.as_str().is_empty() && !self.status.as_str().is_empty()
    }
}

impl MessagePayload {
    /// Sender and content are both given.
    pub open spec fn valid(&self) -> bool {
        self.sender@.len() > 0 && self.content@.len() > 0
    }

    pub fn is_valid(&self) -> (r: bool)
        ensures
            r == self.valid(),
    {
        !self.sender.as_str().is_empty() && !self.content.as_str().is_empty()
    }
}

impl UserPayload {
    /// A username is given.
    pub open spec fn valid(&self) -> bool {
        self.username@.len() > 0
    }

    pub fn is_valid(&self) -> (r: bool)
        ensures
            r == self.valid(),
    {
        !self.username.as_str().is_empty()
    }
}

impl Record for Campaign {
    open spec fn key(&self) -> u64 {
        self.id
    }

    fn id(&self) -> (r: u64) {
        self.id
    }

    fn duplicate(&self) -> (r: Self) {
        Campaign {
            id: self.id,
            name: self.name.clone(),
            description: self.description.clone(),
            created_at: self.created_at,
        }
    }
}

impl Record for Donation {
    open spec fn key(&self) -> u64 {
        self.id
    }

    fn id(&self) -> (r: u64) {
        self.id
    }

    fn duplicate(&self) -> (r: Self) {
        Donation {
            id: self.id,
            campaign_id: self.campaign_id,
            donor_name: self.donor_name.clone(),
            amount: self.amount,
            created_at: self.created_at,
        }
    }
}

impl ChildRecord for Donation {
    open spec fn parent(&self) -> u64 {
        self.campaign_id
    }

    fn parent_id(&self) -> (r: u64) {
        self.campaign_id
    }
}

impl Record for Expense {
    open spec fn key(&self) -> u64 {
        self.id
    }

    fn id(&self) -> (r: u64) {
        self.id
    }

    fn duplicate(&self) -> (r: Self) {
        Expense {
            id: self.id,
            campaign_id: self.campaign_id,
            description: self.description.clone(),
            amount: self.amount,
            created_at: self.created_at,
        }
    }
}

impl ChildRecord for Expense {
    open spec fn parent(&self) -> u64 {
        self.campaign_id
    }

    fn parent_id(&self) -> (r: u64) {
        self.campaign_id
    }
}

impl Record for VoterOutreach {
    open spec fn key(&self) -> u64 {
        self.id
    }

    fn id(&self) -> (r: u64) {
        self.id
    }

    fn duplicate(&self) -> (r: Self) {
        VoterOutreach {
            id: self.id,
            campaign_id: self.campaign_id,
            activity: self.activity.clone(),
            date: self.date,
            status: self.status.clone(),
            created_at: self.created_at,
        }
    }
}

impl ChildRecord for VoterOutreach {
    open spec fn parent(&self) -> u64 {
        self.campaign_id
    }

    fn parent_id(&self) -> (r: u64) {
        self.campaign_id
    }
}

impl Record for SecureMessage {
    open spec fn key(&self) -> u64 {
        self.id
    }

    fn id(&self) -> (r: u64) {
        self.id
    }

    fn duplicate(&self) -> (r: Self) {
        SecureMessage {
            id: self.id,
            campaign_id: self.campaign_id,
            sender: self.sender.clone(),
            content: self.content.clone(),
            created_at: self.created_at,
        }
    }
}

impl ChildRecord for SecureMessage {
    open spec fn parent(&self) -> u64 {
        self.campaign_id
    }

    fn parent_id(&self) -> (r: u64) {
        self.campaign_id
    }
}

impl Record for Notification {
    open spec fn key(&self) -> u64 {
        self.id
    }

    fn id(&self) -> (r: u64) {
        self.id
    }

    fn duplicate(&self) -> (r: Self) {
        Notification {
            id: self.id,
            campaign_id: self.campaign_id,
            message: self.message.clone(),
            created_at: self.created_at,
        }
    }
}

impl ChildRecord for Notification {
    open spec fn parent(&self) -> u64 {
        self.campaign_id
    }

    fn parent_id(&self) -> (r: u64) {
        self.campaign_id
    }
}

impl Record for User {
    open spec fn key(&self) -> u64 {
        self.id
    }

    fn id(&self) -> (r: u64) {
        self.id
    }

    fn duplicate(&self) -> (r: Self) {
        User {
            id: self.id,
            username: self.username.clone(),
            role: self.role,
            created_at: self.created_at,
        }
    }
}

} // verus!
