use campaign_backend::model::{
    CampaignPayload, DonationPayload, ExpensePayload, Message, MessagePayload,
    UpdateCampaignPayload, UserPayload, UserRole, VoterOutreachPayload,
};
use campaign_backend::policy::{is_permitted, Operation};
use campaign_backend::registry::Registry;

fn creds(name: &str, role: UserRole) -> UserPayload {
    UserPayload { username: name.to_string(), role }
}

fn campaign(name: &str, description: &str) -> CampaignPayload {
    CampaignPayload { name: name.to_string(), description: description.to_string() }
}

fn donation(campaign_id: u64, donor: &str, amount: u64) -> DonationPayload {
    DonationPayload { campaign_id, donor_name: donor.to_string(), amount }
}

/// A registry with a manager "alice", a donor "bob" and one campaign.
fn seeded() -> (Registry, u64) {
    let mut reg = Registry::new().unwrap();
    reg.create_user(creds("alice", UserRole::CampaignManager), 10).unwrap();
    reg.create_user(creds("bob", UserRole::Donor), 11).unwrap();
    let c = reg
        .create_campaign(campaign("Clean Water", "desc"), creds("alice", UserRole::CampaignManager), 12)
        .unwrap();
    (reg, c.id)
}

#[test]
fn end_to_end_campaign_and_donation() {
    let mut reg = Registry::new().unwrap();
    let alice = reg.create_user(creds("alice", UserRole::CampaignManager), 100).unwrap();
    assert_eq!(alice.id, 1);
    let c = reg
        .create_campaign(campaign("Clean Water", "desc"), creds("alice", UserRole::CampaignManager), 200)
        .unwrap();
    assert_eq!(c.id, 2);
    assert_eq!(c.name, "Clean Water");
    assert_eq!(c.description, "desc");
    assert_eq!(c.created_at, 200);

    let bob = reg.create_user(creds("bob", UserRole::Donor), 300).unwrap();
    assert_eq!(bob.id, 4);
    let d = reg.create_donation(donation(c.id, "bob", 50), creds("bob", UserRole::Donor), 400).unwrap();
    assert_eq!(d.campaign_id, c.id);
    assert_eq!(d.amount, 50);
    assert_eq!(d.donor_name, "bob");

    let listed = reg.get_donations(c.id).unwrap();
    assert_eq!(listed.len(), 1);
    assert_eq!(listed[0].amount, 50);
    assert_eq!(listed[0], d);

    let missing = reg.create_donation(donation(999, "bob", 50), creds("bob", UserRole::Donor), 500);
    assert!(matches!(missing, Err(Message::NotFound(_))));
}

#[test]
fn creation_notifies_participants() {
    let (reg, cid) = seeded();
    assert_eq!(reg.notifications.len(), 1);
    let n = reg.notifications.get(cid + 1).unwrap();
    assert_eq!(n.campaign_id, cid);
    assert_eq!(n.message, "New campaign created.");
    assert_eq!(n.created_at, 12);
}

#[test]
fn ids_are_distinct_across_kinds() {
    let (mut reg, cid) = seeded();
    let d = reg.create_donation(donation(cid, "bob", 5), creds("bob", UserRole::Donor), 20).unwrap();
    let e = reg
        .create_expense(
            ExpensePayload { campaign_id: cid, description: "posters".to_string(), amount: 7 },
            creds("alice", UserRole::CampaignManager),
            21,
        )
        .unwrap();
    let o = reg
        .create_voter_outreach(
            VoterOutreachPayload {
                campaign_id: cid,
                activity: "canvass".to_string(),
                date: 5,
                status: "planned".to_string(),
            },
            22,
        )
        .unwrap();
    let m = reg
        .send_message_to_campaign(
            MessagePayload { campaign_id: cid, sender: "carol".to_string(), content: "hi".to_string() },
            23,
        )
        .unwrap();
    let ids = vec![cid, d.id, e.id, o.id, m.id];
    for i in 0..ids.len() {
        for j in (i + 1)..ids.len() {
            assert!(ids[i] < ids[j]);
        }
    }
    assert_eq!(ids, vec![3, 5, 7, 9, 10]);
}

#[test]
fn allocator_counts_up() {
    let mut ids = campaign_backend::ids::IdAllocator::new().unwrap();
    assert_eq!(ids.last(), 0);
    let a = ids.next_id();
    let b = ids.next_id();
    let c = ids.next_id();
    assert_eq!((a, b, c), (Some(1), Some(2), Some(3)));
    assert_eq!(ids.last(), 3);
}

#[test]
fn update_twice_gives_same_record() {
    let (mut reg, cid) = seeded();
    let payload = UpdateCampaignPayload {
        id: cid,
        name: Some("Clean Air".to_string()),
        description: None,
    };
    let first = reg.update_campaign(payload.clone(), 30).unwrap();
    let stored_first = reg.get_campaign_by_id(cid).unwrap();
    let second = reg.update_campaign(payload, 31).unwrap();
    let stored_second = reg.get_campaign_by_id(cid).unwrap();
    assert_eq!(first, second);
    assert_eq!(stored_first, stored_second);
    assert_eq!(stored_second.name, "Clean Air");
    assert_eq!(stored_second.description, "desc");
    assert_eq!(stored_second.created_at, 12);
}

#[test]
fn update_of_missing_campaign_is_not_found() {
    let (mut reg, _) = seeded();
    let before = reg.ids.last();
    let r = reg.update_campaign(
        UpdateCampaignPayload { id: 77, name: Some("x".to_string()), description: None },
        30,
    );
    assert!(matches!(r, Err(Message::NotFound(_))));
    assert_eq!(reg.ids.last(), before);
}

#[test]
fn missing_parent_is_not_found_and_consumes_no_id() {
    let (mut reg, _) = seeded();
    let before = reg.ids.last();
    let notices = reg.notifications.len();
    let d = reg.create_donation(donation(999, "bob", 5), creds("bob", UserRole::Donor), 20);
    assert!(matches!(d, Err(Message::NotFound(_))));
    let e = reg.create_expense(
        ExpensePayload { campaign_id: 999, description: "x".to_string(), amount: 1 },
        creds("alice", UserRole::CampaignManager),
        20,
    );
    assert!(matches!(e, Err(Message::NotFound(_))));
    let o = reg.create_voter_outreach(
        VoterOutreachPayload {
            campaign_id: 999,
            activity: "a".to_string(),
            date: 0,
            status: "s".to_string(),
        },
        20,
    );
    assert!(matches!(o, Err(Message::NotFound(_))));
    let m = reg.send_message_to_campaign(
        MessagePayload { campaign_id: 999, sender: "s".to_string(), content: "c".to_string() },
        20,
    );
    assert!(matches!(m, Err(Message::NotFound(_))));
    assert_eq!(reg.ids.last(), before);
    assert_eq!(reg.notifications.len(), notices);
    assert_eq!(reg.donations.len(), 0);
}

#[test]
fn non_donor_cannot_donate() {
    let (mut reg, cid) = seeded();
    reg.create_user(creds("root", UserRole::Admin), 13).unwrap();
    let before = reg.ids.last();
    for who in [creds("alice", UserRole::CampaignManager), creds("root", UserRole::Admin)] {
        let r = reg.create_donation(donation(cid, "x", 5), who, 20);
        assert!(matches!(r, Err(Message::UnAuthorized(_))));
    }
    let bad_payload = reg.create_donation(donation(cid, "", 0), creds("alice", UserRole::CampaignManager), 20);
    assert!(matches!(bad_payload, Err(Message::UnAuthorized(_))));
    assert_eq!(reg.ids.last(), before);
    assert_eq!(reg.donations.len(), 0);
}

#[test]
fn unknown_or_mismatched_credentials_are_unauthorized() {
    let (mut reg, _) = seeded();
    let r = reg.create_campaign(campaign("a", "b"), creds("mallory", UserRole::Admin), 20);
    assert!(matches!(r, Err(Message::UnAuthorized(_))));
    let r = reg.create_campaign(campaign("a", "b"), creds("alice", UserRole::Admin), 20);
    assert!(matches!(r, Err(Message::UnAuthorized(_))));
    let r = reg.create_campaign(campaign("a", "b"), creds("bob", UserRole::Donor), 20);
    assert!(matches!(r, Err(Message::UnAuthorized(_))));
    let r = reg.create_expense(
        ExpensePayload { campaign_id: 3, description: "x".to_string(), amount: 1 },
        creds("bob", UserRole::Donor),
        20,
    );
    assert!(matches!(r, Err(Message::UnAuthorized(_))));
}

#[test]
fn authenticate_user_resolves_matching_user() {
    let (reg, _) = seeded();
    let u = reg.authenticate_user(creds("bob", UserRole::Donor)).unwrap();
    assert_eq!(u.id, 2);
    assert_eq!(u.username, "bob");
    let r = reg.authenticate_user(creds("bob", UserRole::Admin));
    assert!(matches!(r, Err(Message::UnAuthorized(_))));
}

#[test]
fn invalid_payloads_are_rejected() {
    let (mut reg, cid) = seeded();
    let mgr = || creds("alice", UserRole::CampaignManager);
    let r = reg.create_campaign(campaign("", "d"), mgr(), 20);
    assert!(matches!(r, Err(Message::InvalidPayload(_))));
    let r = reg.create_campaign(campaign("n", ""), mgr(), 20);
    assert!(matches!(r, Err(Message::InvalidPayload(_))));
    let r = reg.create_donation(donation(cid, "bob", 0), creds("bob", UserRole::Donor), 20);
    assert!(matches!(r, Err(Message::InvalidPayload(_))));
    let r = reg.create_donation(donation(cid, "", 3), creds("bob", UserRole::Donor), 20);
    assert!(matches!(r, Err(Message::InvalidPayload(_))));
    let r = reg.create_expense(
        ExpensePayload { campaign_id: cid, description: "x".to_string(), amount: 0 },
        mgr(),
        20,
    );
    assert!(matches!(r, Err(Message::InvalidPayload(_))));
    let r = reg.create_voter_outreach(
        VoterOutreachPayload { campaign_id: cid, activity: "a".to_string(), date: 0, status: String::new() },
        20,
    );
    assert!(matches!(r, Err(Message::InvalidPayload(_))));
    let r = reg.send_message_to_campaign(
        MessagePayload { campaign_id: cid, sender: String::new(), content: "c".to_string() },
        20,
    );
    assert!(matches!(r, Err(Message::InvalidPayload(_))));
    let r = reg.create_user(creds("", UserRole::Donor), 20);
    assert!(matches!(r, Err(Message::InvalidPayload(_))));
}

#[test]
fn duplicate_username_is_an_error() {
    let (mut reg, _) = seeded();
    let before = reg.ids.last();
    let r = reg.create_user(creds("alice", UserRole::Donor), 20);
    assert!(matches!(r, Err(Message::Error(_))));
    assert_eq!(reg.ids.last(), before);
    assert_eq!(reg.users.len(), 2);
}

#[test]
fn empty_listings_are_not_found() {
    let reg = Registry::new().unwrap();
    assert!(matches!(reg.get_campaigns(), Err(Message::NotFound(_))));
    assert!(matches!(reg.get_users(), Err(Message::NotFound(_))));
    let (reg, cid) = seeded();
    assert!(matches!(reg.get_donations(cid), Err(Message::NotFound(_))));
    assert!(matches!(reg.get_expenses(cid), Err(Message::NotFound(_))));
    assert!(matches!(reg.get_voter_outreach(cid), Err(Message::NotFound(_))));
    assert!(matches!(reg.get_messages(cid), Err(Message::NotFound(_))));
    assert!(matches!(reg.get_campaign_by_id(999), Err(Message::NotFound(_))));
    assert!(matches!(reg.get_user_by_id(999), Err(Message::NotFound(_))));
}

#[test]
fn listings_filter_by_campaign_in_id_order() {
    let (mut reg, c1) = seeded();
    let mgr = creds("alice", UserRole::CampaignManager);
    let c2 = reg.create_campaign(campaign("Roads", "fix"), mgr.clone(), 13).unwrap().id;
    let bob = creds("bob", UserRole::Donor);
    let a = reg.create_donation(donation(c1, "bob", 1), bob.clone(), 20).unwrap();
    reg.create_donation(donation(c2, "bob", 2), bob.clone(), 21).unwrap();
    let b = reg.create_donation(donation(c1, "bob", 3), bob.clone(), 22).unwrap();
    let listed = reg.get_donations(c1).unwrap();
    assert_eq!(listed, vec![a, b]);
    let all = reg.get_campaigns().unwrap();
    assert_eq!(all.iter().map(|c| c.id).collect::<Vec<_>>(), vec![c1, c2]);
    let users = reg.get_users().unwrap();
    assert_eq!(users.iter().map(|u| u.username.clone()).collect::<Vec<_>>(), vec!["alice", "bob"]);
    assert_eq!(reg.get_user_by_id(2).unwrap().username, "bob");

    let m = reg
        .send_message_to_campaign(
            MessagePayload { campaign_id: c2, sender: "s".to_string(), content: "c".to_string() },
            23,
        )
        .unwrap();
    assert_eq!(reg.get_messages(c2).unwrap(), vec![m]);
    let e = reg
        .create_expense(ExpensePayload { campaign_id: c2, description: "tar".to_string(), amount: 9 }, mgr, 24)
        .unwrap();
    assert_eq!(reg.get_expenses(c2).unwrap(), vec![e]);
    let o = reg
        .create_voter_outreach(
            VoterOutreachPayload {
                campaign_id: c1,
                activity: "rally".to_string(),
                date: 99,
                status: "completed".to_string(),
            },
            25,
        )
        .unwrap();
    assert_eq!(reg.get_voter_outreach(c1).unwrap(), vec![o]);
}

#[test]
fn permission_table() {
    assert!(is_permitted(Operation::CreateCampaign, UserRole::Admin));
    assert!(is_permitted(Operation::CreateCampaign, UserRole::CampaignManager));
    assert!(!is_permitted(Operation::CreateCampaign, UserRole::Donor));
    assert!(is_permitted(Operation::CreateDonation, UserRole::Donor));
    assert!(!is_permitted(Operation::CreateDonation, UserRole::Admin));
    assert!(!is_permitted(Operation::CreateDonation, UserRole::CampaignManager));
    assert!(is_permitted(Operation::CreateExpense, UserRole::Admin));
    assert!(is_permitted(Operation::CreateExpense, UserRole::CampaignManager));
    assert!(!is_permitted(Operation::CreateExpense, UserRole::Donor));
}

#[test]
fn notify_participants_adds_one_notice() {
    let (mut reg, cid) = seeded();
    reg.notify_participants(cid, "hello".to_string(), 40);
    assert_eq!(reg.notifications.len(), 2);
    let n = reg.notifications.get(5).unwrap();
    assert_eq!(n.message, "hello");
    assert_eq!(n.campaign_id, cid);
    assert_eq!(n.created_at, 40);
}
