use vstd::prelude::*;

use crate::ids::{lemma_last_issued_bounded, IdAllocator};
use crate::model::{
    Campaign, CampaignPayload, Donation, DonationPayload, Expense, ExpensePayload, Message,
    MessagePayload, Notification, SecureMessage, UpdateCampaignPayload, User, UserPayload,
    VoterOutreach, VoterOutreachPayload,
};
use crate::policy::{
    authenticates, credentials_match, first_match, is_permitted, permits, username_in_use,
    Operation,
};
use crate::store::{keys_at_most, Record, RecordStore};

verus! {

broadcast use lemma_last_issued_bounded;

/// The application state: one store per kind of record and the allocator
/// that issues every record's identifier.
pub struct Registry {
    pub ids: IdAllocator,
    pub campaigns: RecordStore<Campaign>,
    pub donations: RecordStore<Donation>,
    pub expenses: RecordStore<Expense>,
    pub outreach: RecordStore<VoterOutreach>,
    pub messages: RecordStore<SecureMessage>,
    pub notifications: RecordStore<Notification>,
    pub users: RecordStore<User>,
}

/// `after` is `before` with one notification added under the free key `id`,
/// about campaign `campaign_id`, saying `text`, stamped `now`.
pub open spec fn notice_added(
    before: RecordStore<Notification>,
    after: RecordStore<Notification>,
    id: u64,
    campaign_id: u64,
    text: Seq<char>,
    now: u64,
) -> bool {
    &&& after.record(id) is Some
    &&& after.record(id).unwrap().id == id
    &&& after.record(id).unwrap().campaign_id == campaign_id
    &&& after.record(id).unwrap().message@ == text
    &&& after.record(id).unwrap().created_at == now
    &&& before.grows_by(after, after.record(id).unwrap())
}

/// `c` with each field that `p` gives replaced.
pub open spec fn updated_campaign(c: Campaign, p: UpdateCampaignPayload) -> Campaign {
    Campaign {
        name: match p.name {
            Some(n) => n,
            None => c.name,
        },
        description: match p.description {
            Some(d) => d,
            None => c.description,
        },
        ..c
    }
}

impl Registry {
    /// The claimed credentials name a stored user whose role may perform `op`.
    pub open spec fn admits(&self, user_payload: UserPayload, op: Operation) -> bool {
        authenticates(self.users@, user_payload) && permits(op, user_payload.role)
    }

    /// Every store is well formed and holds no key that the allocator has
    /// not issued yet.
    pub open spec fn wf(&self) -> bool {
        let n = self.ids.last_issued();
        &&& self.campaigns.wf() && keys_at_most(self.campaigns@, n)
        &&& self.donations.wf() && keys_at_most(self.donations@, n)
        &&& self.expenses.wf() && keys_at_most(self.expenses@, n)
        &&& self.outreach.wf() && keys_at_most(self.outreach@, n)
        &&& self.messages.wf() && keys_at_most(self.messages@, n)
        &&& self.notifications.wf() && keys_at_most(self.notifications@, n)
        &&& self.users.wf() && keys_at_most(self.users@, n)
    }

    /// Only the notification store and the allocator differ between the two.
    pub open spec fn same_but_notices(&self, other: &Registry) -> bool {
        &&& self.campaigns == other.campaigns
        &&& self.donations == other.donations
        &&& self.expenses == other.expenses
        &&& self.outreach == other.outreach
        &&& self.messages == other.messages
        &&& self.users == other.users
    }

    /// The two hold the same records and the same counter value.
    pub open spec fn same_state(&self, other: &Registry) -> bool {
        &&& self.same_but_notices(other)
        &&& self.notifications == other.notifications
        &&& self.ids.last_issued() == other.ids.last_issued()
    }

    /// Between `self` and `after`, a notification about `campaign_id` saying
    /// `text` and stamped `now` was added under the identifier after `last`;
    /// when `last` is already `u64::MAX` the counter cannot advance and nothing
    /// was added.
    pub open spec fn notified(
        &self,
        after: &Registry,
        last: nat,
        campaign_id: u64,
        text: Seq<char>,
        now: u64,
    ) -> bool {
        if last < u64::MAX {
            &&& after.ids.last_issued() == last + 1
            &&& notice_added(
                self.notifications,
                after.notifications,
                (last + 1) as u64,
                campaign_id,
                text,
                now,
            )
        } else {
            &&& after.ids.last_issued() == last
            &&& after.notifications == self.notifications
        }
    }

    /// An empty registry; `None` when the counter's stable memory cannot be
    /// set up.
    pub fn new() -> (r: Option<Registry>)
        ensures
            r matches Some(reg) ==> {
                &&& reg.wf()
                &&& reg.ids.last_issued() == 0
                &&& reg.campaigns@.len() == 0
                &&& reg.donations@.len() == 0
                &&& reg.expenses@.len() == 0
                &&& reg.outreach@.len() == 0
                &&& reg.messages@.len() == 0
                &&& reg.notifications@.len() == 0
                &&& reg.users@.len() == 0
            },
    {
        let ids = match IdAllocator::new() {
            Some(a) => a,
            None => return None,
        };
        Some(Registry {
            ids,
            campaigns: RecordStore::new(),
            donations: RecordStore::new(),
            expenses: RecordStore::new(),
            outreach: RecordStore::new(),
            messages: RecordStore::new(),
            notifications: RecordStore::new(),
            users: RecordStore::new(),
        })
    }

    /// Records a notification about campaign `campaign_id` under a fresh
    /// identifier. Notifications are best effort: when the counter cannot
    /// advance, nothing is recorded.
    pub fn notify_participants(&mut self, campaign_id: u64, message: String, now: u64)
        requires
            old(self).wf(),
        ensures
            final(self).wf(),
            old(self).notified(final(self), old(self).ids.last_issued(), campaign_id, message@, now),
            final(self).same_but_notices(old(self)),
    {
        let id = match self.ids.next_id() {
            Some(v) => v,
            None => return,
        };
        let notification = Notification { id, campaign_id, message, created_at: now };
        self.notifications.insert(notification);
        proof {
            assert(!old(self).notifications.contains_key(id));
        }
    }

    /// The first stored user whose username and role are those claimed.
    pub fn authenticate_user(&self, payload: UserPayload) -> (r: Result<User, Message>)
        requires
            self.wf(),
        ensures
            match r {
                Ok(u) => exists|i: int| first_match(self.users@, payload, i) && self.users@[i] == u,
                Err(e) => e is UnAuthorized && !authenticates(self.users@, payload),
            },
    {
        let users = self.users.records();
        let mut i: usize = 0;
        while i < users.len()
            invariant
                users@ == self.users@,
                0 <= i <= users@.len(),
                forall|j: int| 0 <= j < i ==> !credentials_match(#[trigger] users@[j], payload),
            decreases users@.len() - i,
        {
            if users[i].username == payload.username && users[i].role == payload.role {
                proof {
                    assert(first_match(self.users@, payload, i as int));
                }
                return Ok(users[i].duplicate());
            }
            i = i + 1;
        }
        Err(Message::UnAuthorized("Invalid credentials".to_string()))
    }

    /// Creates a campaign on behalf of an Admin or CampaignManager, and
    /// notifies its participants.
    pub fn create_campaign(
        &mut self,
        payload: CampaignPayload,
        user_payload: UserPayload,
        now: u64,
    ) -> (r: Result<Campaign, Message>)
        requires
            old(self).wf(),
        ensures
            final(self).wf(),
            r is Err ==> final(self).same_state(old(self)),
            !authenticates(old(self).users@, user_payload) ==> r matches Err(Message::UnAuthorized(_)),
            authenticates(old(self).users@, user_payload) && !permits(
                Operation::CreateCampaign,
                user_payload.role,
            ) ==> r matches Err(Message::UnAuthorized(_)),
            authenticates(old(self).users@, user_payload) && permits(
                Operation::CreateCampaign,
                user_payload.role,
            ) && !payload.valid() ==> r matches Err(Message::InvalidPayload(_)),
            authenticates(old(self).users@, user_payload) && permits(
                Operation::CreateCampaign,
                user_payload.role,
            ) && payload.valid()
                && old(self).ids.last_issued() < u64::MAX ==> r is Ok,
            authenticates(old(self).users@, user_payload) && permits(
                Operation::CreateCampaign,
                user_payload.role,
            ) && payload.valid()
                && old(self).ids.last_issued() == u64::MAX ==> r matches Err(Message::Error(_)),
            r matches Ok(c) ==> {
                &&& c.id == old(self).ids.last_issued() + 1
                &&& c.name == payload.name
                &&& c.description == payload.description
                &&& c.created_at == now
                &&& old(self).campaigns.grows_by(final(self).campaigns, c)
                &&& old(self).notified(
                    final(self),
                    c.id as nat,
                    c.id,
                    "New campaign created."@,
                    now,
                )
                &&& final(self).donations == old(self).donations
                &&& final(self).expenses == old(self).expenses
                &&& final(self).outreach == old(self).outreach
                &&& final(self).messages == old(self).messages
                &&& final(self).users == old(self).users
            },
    {
        let user = match self.authenticate_user(user_payload) {
            Ok(u) => u,
            Err(e) => return Err(e),
        };
        if !is_permitted(Operation::CreateCampaign, user.role) {
            return Err(
                Message::UnAuthorized("You do not have permission to create a campaign".to_string()),
            );
        }
        if !payload.is_valid() {
            return Err(
                Message::InvalidPayload("Ensure 'name' and 'description' are provided.".to_string()),
            );
        }
        let id = match self.ids.next_id() {
            Some(v) => v,
            None => return Err(Message::Error("Cannot increment ID counter".to_string())),
        };
        let campaign = Campaign {
            id,
            name: payload.name,
            description: payload.description,
            created_at: now,
        };
        self.campaigns.insert(campaign.duplicate());
        self.notify_participants(campaign.id, "New campaign created.".to_string(), now);
        Ok(campaign)
    }

    /// Records a donation to an existing campaign on behalf of a Donor, and
    /// notifies the campaign's participants.
    pub fn create_donation(
        &mut self,
        payload: DonationPayload,
        user_payload: UserPayload,
        now: u64,
    ) -> (r: Result<Donation, Message>)
        requires
            old(self).wf(),
        ensures
            final(self).wf(),
            r is Err ==> final(self).same_state(old(self)),
            !old(self).admits(user_payload, Operation::CreateDonation) ==> r matches Err(
                Message::UnAuthorized(_),
            ),
            old(self).admits(user_payload, Operation::CreateDonation) && !payload.valid()
                ==> r matches Err(Message::InvalidPayload(_)),
            old(self).admits(user_payload, Operation::CreateDonation) && payload.valid()
                && !old(self).campaigns.contains_key(payload.campaign_id) ==> r matches Err(
                Message::NotFound(_),
            ),
            old(self).admits(user_payload, Operation::CreateDonation) && payload.valid()
                && old(self).campaigns.contains_key(payload.campaign_id)
                && old(self).ids.last_issued() < u64::MAX ==> r is Ok,
            old(self).admits(user_payload, Operation::CreateDonation) && payload.valid()
                && old(self).campaigns.contains_key(payload.campaign_id)
                && old(self).ids.last_issued() == u64::MAX ==> r matches Err(Message::Error(_)),
            r matches Ok(d) ==> {
                &&& d.id == old(self).ids.last_issued() + 1
                &&& d.campaign_id == payload.campaign_id
                &&& d.donor_name == payload.donor_name
                &&& d.amount == payload.amount
                &&& d.created_at == now
                &&& old(self).donations.grows_by(final(self).donations, d)
                &&& old(self).notified(
                    final(self),
                    d.id as nat,
                    d.campaign_id,
                    "New donation received."@,
                    now,
                )
                &&& final(self).campaigns == old(self).campaigns
                &&& final(self).expenses == old(self).expenses
                &&& final(self).outreach == old(self).outreach
                &&& final(self).messages == old(self).messages
                &&& final(self).users == old(self).users
            },
    {
        let user = match self.authenticate_user(user_payload) {
            Ok(u) => u,
            Err(e) => return Err(e),
        };
        if !is_permitted(Operation::CreateDonation, user.role) {
            return Err(
                Message::UnAuthorized(
                    "You do not have permission to create a donation.".to_string(),
                ),
            );
        }
        if !payload.is_valid() {
            return Err(
                Message::InvalidPayload(
                    "Ensure 'donor_name' and 'amount' are provided.".to_string(),
                ),
            );
        }
        if !self.campaigns.contains(payload.campaign_id) {
            return Err(Message::NotFound("Campaign not found".to_string()));
        }
        let id = match self.ids.next_id() {
            Some(v) => v,
            None => return Err(Message::Error("Cannot increment ID counter".to_string())),
        };
        let donation = Donation {
            id,
            campaign_id: payload.campaign_id,
            donor_name: payload.donor_name,
            amount: payload.amount,
            created_at: now,
        };
        self.donations.insert(donation.duplicate());
        self.notify_participants(donation.campaign_id, "New donation received.".to_string(), now);
        Ok(donation)
    }

    /// Records an expense of an existing campaign on behalf of an Admin or
    /// CampaignManager, and notifies the campaign's participants.
    pub fn create_expense(
        &mut self,
        payload: ExpensePayload,
        user_payload: UserPayload,
        now: u64,
    ) -> (r: Result<Expense, Message>)
        requires
            old(self).wf(),
        ensures
            final(self).wf(),
            r is Err ==> final(self).same_state(old(self)),
            !old(self).admits(user_payload, Operation::CreateExpense) ==> r matches Err(
                Message::UnAuthorized(_),
            ),
            old(self).admits(user_payload, Operation::CreateExpense) && !payload.valid()
                ==> r matches Err(Message::InvalidPayload(_)),
            old(self).admits(user_payload, Operation::CreateExpense) && payload.valid()
                && !old(self).campaigns.contains_key(payload.campaign_id) ==> r matches Err(
                Message::NotFound(_),
            ),
            old(self).admits(user_payload, Operation::CreateExpense) && payload.valid()
                && old(self).campaigns.contains_key(payload.campaign_id)
                && old(self).ids.last_issued() < u64::MAX ==> r is Ok,
            old(self).admits(user_payload, Operation::CreateExpense) && payload.valid()
                && old(self).campaigns.contains_key(payload.campaign_id)
                && old(self).ids.last_issued() == u64::MAX ==> r matches Err(Message::Error(_)),
            r matches Ok(x) ==> {
                &&& x.id == old(self).ids.last_issued() + 1
                &&& x.campaign_id == payload.campaign_id
                &&& x.description == payload.description
                &&& x.amount == payload.amount
                &&& x.created_at == now
                &&& old(self).expenses.grows_by(final(self).expenses, x)
                &&& old(self).notified(
                    final(self),
                    x.id as nat,
                    x.campaign_id,
                    "New expense added."@,
                    now,
                )
                &&& final(self).campaigns == old(self).campaigns
                &&& final(self).donations == old(self).donations
                &&& final(self).outreach == old(self).outreach
                &&& final(self).messages == old(self).messages
                &&& final(self).users == old(self).users
            },
    {
        let user = match self.authenticate_user(user_payload) {
            Ok(u) => u,
            Err(e) => return Err(e),
        };
        if !is_permitted(Operation::CreateExpense, user.role) {
            return Err(
                Message::UnAuthorized(
                    "You do not have permission to create an expense.".to_string(),
                ),
            );
        }
        if !payload.is_valid() {
            return Err(
                Message::InvalidPayload(
                    "Ensure 'description' and 'amount' are provided.".to_string(),
                ),
            );
        }
        if !self.campaigns.contains(payload.campaign_id) {
            return Err(Message::NotFound("Campaign not found".to_string()));
        }
        let id = match self.ids.next_id() {
            Some(v) => v,
            None => return Err(Message::Error("Cannot increment ID counter".to_string())),
        };
        let expense = Expense {
            id,
            campaign_id: payload.campaign_id,
            description: payload.description,
            amount: payload.amount,
            created_at: now,
        };
        self.expenses.insert(expense.duplicate());
        self.notify_participants(expense.campaign_id, "New expense added.".to_string(), now);
        Ok(expense)
    }

    /// Records a voter outreach activity of an existing campaign; anyone may.
    pub fn create_voter_outreach(&mut self, payload: VoterOutreachPayload, now: u64) -> (r: Result<
        VoterOutreach,
        Message,
    >)
        requires
            old(self).wf(),
        ensures
            final(self).wf(),
            r is Err ==> final(self).same_state(old(self)),
            !payload.valid() ==> r matches Err(Message::InvalidPayload(_)),
            payload.valid() && !old(self).campaigns.contains_key(payload.campaign_id)
                ==> r matches Err(Message::NotFound(_)),
            payload.valid() && old(self).campaigns.contains_key(payload.campaign_id)
                && old(self).ids.last_issued() < u64::MAX ==> r is Ok,
            payload.valid() && old(self).campaigns.contains_key(payload.campaign_id)
                && old(self).ids.last_issued() == u64::MAX ==> r matches Err(Message::Error(_)),
            r matches Ok(o) ==> {
                &&& o.id == old(self).ids.last_issued() + 1
                &&& o.campaign_id == payload.campaign_id
                &&& o.activity == payload.activity
                &&& o.date == payload.date
                &&& o.status == payload.status
                &&& o.created_at == now
                &&& old(self).outreach.grows_by(final(self).outreach, o)
                &&& final(self).ids.last_issued() == o.id
                &&& final(self).campaigns == old(self).campaigns
                &&& final(self).donations == old(self).donations
                &&& final(self).expenses == old(self).expenses
                &&& final(self).messages == old(self).messages
                &&& final(self).notifications == old(self).notifications
                &&& final(self).users == old(self).users
            },
    {
        if !payload.is_valid() {
            return Err(
                Message::InvalidPayload("Ensure 'activity' and 'status' are provided.".to_string()),
            );
        }
        if !self.campaigns.contains(payload.campaign_id) {
            return Err(Message::NotFound("Campaign not found".to_string()));
        }
        let id = match self.ids.next_id() {
            Some(v) => v,
            None => return Err(Message::Error("Cannot increment ID counter".to_string())),
        };
        let outreach = VoterOutreach {
            id,
            campaign_id: payload.campaign_id,
            activity: payload.activity,
            date: payload.date,
            status: payload.status,
            created_at: now,
        };
        self.outreach.insert(outreach.duplicate());
        Ok(outreach)
    }

    /// Records a message to an existing campaign; anyone may send one.
    pub fn send_message_to_campaign(&mut self, payload: MessagePayload, now: u64) -> (r: Result<
        SecureMessage,
        Message,
    >)
        requires
            old(self).wf(),
        ensures
            final(self).wf(),
            r is Err ==> final(self).same_state(old(self)),
            !payload.valid() ==> r matches Err(Message::InvalidPayload(_)),
            payload.valid() && !old(self).campaigns.contains_key(payload.campaign_id)
                ==> r matches Err(Message::NotFound(_)),
            payload.valid() && old(self).campaigns.contains_key(payload.campaign_id)
                && old(self).ids.last_issued() < u64::MAX ==> r is Ok,
            payload.valid() && old(self).campaigns.contains_key(payload.campaign_id)
                && old(self).ids.last_issued() == u64::MAX ==> r matches Err(Message::Error(_)),
            r matches Ok(m) ==> {
                &&& m.id == old(self).ids.last_issued() + 1
                &&& m.campaign_id == payload.campaign_id
                &&& m.sender == payload.sender
                &&& m.content == payload.content
                &&& m.created_at == now
                &&& old(self).messages.grows_by(final(self).messages, m)
                &&& final(self).ids.last_issued() == m.id
                &&& final(self).campaigns == old(self).campaigns
                &&& final(self).donations == old(self).donations
                &&& final(self).expenses == old(self).expenses
                &&& final(self).outreach == old(self).outreach
                &&& final(self).notifications == old(self).notifications
                &&& final(self).users == old(self).users
            },
    {
        if !payload.is_valid() {
            return Err(
                Message::InvalidPayload("Ensure 'sender' and 'content' are provided.".to_string()),
            );
        }
        if !self.campaigns.contains(payload.campaign_id) {
            return Err(Message::NotFound("Campaign not found".to_string()));
        }
        let id = match self.ids.next_id() {
            Some(v) => v,
            None => return Err(Message::Error("Cannot increment ID counter".to_string())),
        };
        let message = SecureMessage {
            id,
            campaign_id: payload.campaign_id,
            sender: payload.sender,
            content: payload.content,
            created_at: now,
        };
        self.messages.insert(message.duplicate());
        Ok(message)
    }

    /// Replaces the given fields of a stored campaign, and notifies its
    /// participants.
    pub fn update_campaign(&mut self, payload: UpdateCampaignPayload, now: u64) -> (r: Result<
        Campaign,
        Message,
    >)
        requires
            old(self).wf(),
        ensures
            final(self).wf(),
            match old(self).campaigns.record(payload.id) {
                None => r matches Err(Message::NotFound(_)) && *final(self) == *old(self),
                Some(c) => {
                    let u = updated_campaign(c, payload);
                    &&& r == Ok::<Campaign, Message>(u)
                    &&& final(self).campaigns.record(payload.id) == Some(u)
                    &&& forall|k: u64|
                        k != payload.id ==> final(self).campaigns.record(k) == old(
                            self,
                        ).campaigns.record(k)
                    &&& old(self).notified(
                        final(self),
                        old(self).ids.last_issued(),
                        payload.id,
                        "Campaign updated."@,
                        now,
                    )
                    &&& final(self).donations == old(self).donations
                    &&& final(self).expenses == old(self).expenses
                    &&& final(self).outreach == old(self).outreach
                    &&& final(self).messages == old(self).messages
                    &&& final(self).users == old(self).users
                },
            },
    {
        match self.campaigns.get(payload.id) {
            Some(mut campaign) => {
                if let Some(name) = payload.name {
                    campaign.name = name;
                }
                if let Some(description) = payload.description {
                    campaign.description = description;
                }
                self.campaigns.insert(campaign.duplicate());
                self.notify_participants(campaign.id, "Campaign updated.".to_string(), now);
                Ok(campaign)
            },
            None => Err(Message::NotFound("Campaign not found".to_string())),
        }
    }

    /// Whether a stored user has the username `name`.
    pub fn username_taken(&self, name: &String) -> (r: bool)
        ensures
            r == username_in_use(self.users@, name@),
    {
        let users = self.users.records();
        let mut i: usize = 0;
        while i < users.len()
            invariant
                users@ == self.users@,
                0 <= i <= users@.len(),
                forall|j: int| 0 <= j < i ==> (#[trigger] users@[j]).username@ != name@,
            decreases users@.len() - i,
        {
            if users[i].username == *name {
                return true;
            }
            i = i + 1;
        }
        false
    }

    /// Registers a user under a username that no stored user has.
    pub fn create_user(&mut self, payload: UserPayload, now: u64) -> (r: Result<User, Message>)
        requires
            old(self).wf(),
        ensures
            final(self).wf(),
            r is Err ==> final(self).same_state(old(self)),
            !payload.valid() ==> r matches Err(Message::InvalidPayload(_)),
            payload.valid() && username_in_use(old(self).users@, payload.username@)
                ==> r matches Err(Message::Error(_)),
            payload.valid() && !username_in_use(old(self).users@, payload.username@)
                && old(self).ids.last_issued() < u64::MAX ==> r is Ok,
            payload.valid() && !username_in_use(old(self).users@, payload.username@)
                && old(self).ids.last_issued() == u64::MAX ==> r matches Err(Message::Error(_)),
            r matches Ok(u) ==> {
                &&& u.id == old(self).ids.last_issued() + 1
                &&& u.username == payload.username
                &&& u.role == payload.role
                &&& u.created_at == now
                &&& old(self).users.grows_by(final(self).users, u)
                &&& final(self).ids.last_issued() == u.id
                &&& final(self).campaigns == old(self).campaigns
                &&& final(self).donations == old(self).donations
                &&& final(self).expenses == old(self).expenses
                &&& final(self).outreach == old(self).outreach
                &&& final(self).messages == old(self).messages
                &&& final(self).notifications == old(self).notifications
            },
    {
        if !payload.is_valid() {
            return Err(
                Message::InvalidPayload("Ensure 'username' and 'role' are provided.".to_string()),
            );
        }
        if self.username_taken(&payload.username) {
            return Err(Message::Error("User already exists".to_string()));
        }
        let id = match self.ids.next_id() {
            Some(v) => v,
            None => return Err(Message::Error("Cannot increment ID counter".to_string())),
        };
        let user = User { id, username: payload.username, role: payload.role, created_at: now };
        self.users.insert(user.duplicate());
        Ok(user)
    }

    /// Every campaign in ascending id order; NotFound when there is none.
    pub fn get_campaigns(&self) -> (r: Result<Vec<Campaign>, Message>)
        ensures
            self.campaigns@.len() == 0 ==> r matches Err(Message::NotFound(_)),
            self.campaigns@.len() > 0 ==> (r matches Ok(v) && v@ == self.campaigns@),
    {
        let campaigns = self.campaigns.list_all();
        if campaigns.len() == 0 {
            Err(Message::NotFound("No campaigns found".to_string()))
        } else {
            Ok(campaigns)
        }
    }

    /// The campaign with identifier `id`.
    pub fn get_campaign_by_id(&self, id: u64) -> (r: Result<Campaign, Message>)
        requires
            self.wf(),
        ensures
            match self.campaigns.record(id) {
                Some(c) => r == Ok::<Campaign, Message>(c),
                None => r matches Err(Message::NotFound(_)),
            },
    {
        match self.campaigns.get(id) {
            Some(c) => Ok(c),
            None => Err(Message::NotFound("Campaign not found".to_string())),
        }
    }

    /// The donations to campaign `campaign_id` in ascending id order;
    /// NotFound when there is none.
    pub fn get_donations(&self, campaign_id: u64) -> (r: Result<Vec<Donation>, Message>)
        ensures
            self.donations.children(campaign_id).len() == 0 ==> r matches Err(Message::NotFound(_)),
            self.donations.children(campaign_id).len() > 0 ==> (r matches Ok(v) && v@
                == self.donations.children(campaign_id)),
    {
        let donations = self.donations.list_by_parent(campaign_id);
        if donations.len() == 0 {
            Err(Message::NotFound("No donations found".to_string()))
        } else {
            Ok(donations)
        }
    }

    /// The expenses of campaign `campaign_id` in ascending id order;
    /// NotFound when there is none.
    pub fn get_expenses(&self, campaign_id: u64) -> (r: Result<Vec<Expense>, Message>)
        ensures
            self.expenses.children(campaign_id).len() == 0 ==> r matches Err(Message::NotFound(_)),
            self.expenses.children(campaign_id).len() > 0 ==> (r matches Ok(v) && v@
                == self.expenses.children(campaign_id)),
    {
        let expenses = self.expenses.list_by_parent(campaign_id);
        if expenses.len() == 0 {
            Err(Message::NotFound("No expenses found".to_string()))
        } else {
            Ok(expenses)
        }
    }

    /// The outreach activities of campaign `campaign_id` in ascending id
    /// order; NotFound when there is none.
    pub fn get_voter_outreach(&self, campaign_id: u64) -> (r: Result<Vec<VoterOutreach>, Message>)
        ensures
            self.outreach.children(campaign_id).len() == 0 ==> r matches Err(Message::NotFound(_)),
            self.outreach.children(campaign_id).len() > 0 ==> (r matches Ok(v) && v@
                == self.outreach.children(campaign_id)),
    {
        let outreach = self.outreach.list_by_parent(campaign_id);
        if outreach.len() == 0 {
            Err(Message::NotFound("No voter outreach activities found".to_string()))
        } else {
            Ok(outreach)
        }
    }

    /// The messages sent to campaign `campaign_id` in ascending id order;
    /// NotFound when there is none.
    pub fn get_messages(&self, campaign_id: u64) -> (r: Result<Vec<SecureMessage>, Message>)
        ensures
            self.messages.children(campaign_id).len() == 0 ==> r matches Err(Message::NotFound(_)),
            self.messages.children(campaign_id).len() > 0 ==> (r matches Ok(v) && v@
                == self.messages.children(campaign_id)),
    {
        let messages = self.messages.list_by_parent(campaign_id);
        if messages.len() == 0 {
            Err(Message::NotFound("No messages found".to_string()))
        } else {
            Ok(messages)
        }
    }

    /// Every user in ascending id order; NotFound when there is none.
    pub fn get_users(&self) -> (r: Result<Vec<User>, Message>)
        ensures
            self.users@.len() == 0 ==> r matches Err(Message::NotFound(_)),
            self.users@.len() > 0 ==> (r matches Ok(v) && v@ == self.users@),
    {
        let users = self.users.list_all();
        if users.len() == 0 {
            Err(Message::NotFound("No users found".to_string()))
        } else {
            Ok(users)
        }
    }

    /// The user with identifier `id`.
    pub fn get_user_by_id(&self, id: u64) -> (r: Result<User, Message>)
        requires
            self.wf(),
        ensures
            match self.users.record(id) {
                Some(u) => r == Ok::<User, Message>(u),
                None => r matches Err(Message::NotFound(_)),
            },
    {
        match self.users.get(id) {
            Some(u) => Ok(u),
            None => Err(Message::NotFound("User not found".to_string())),
        }
    }
}

} // verus!
