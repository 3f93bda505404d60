use campaign::AuthProofs;
use campaign::Campaign;
use campaign::CampaignData;
use campaign::Error;
use campaign::Identity;
use campaign::Milestone;

fn creator() -> Identity {
    Identity { id: 1 }
}

fn admin() -> Identity {
    Identity { id: 2 }
}

fn donor() -> Identity {
    Identity { id: 3 }
}

fn full_auth() -> AuthProofs {
    let mut auth = AuthProofs::new();
    auth.grant(creator());
    auth.grant(admin());
    auth.grant(donor());
    auth
}

fn initialized(percentages: Vec<u32>, target: i128) -> Campaign {
    let auth = full_auth();
    let mut c = Campaign::new();
    let r = c.initialize(&auth, creator(), admin(), target, percentages);
    assert_eq!(r, Ok(()));
    c
}

#[test]
fn test_campaign_flow() {
    let auth = full_auth();
    let mut c = initialized(vec![30, 40, 30], 100);

    assert_eq!(c.donate(&auth, donor(), 100), Ok(()));
    assert_eq!(c.complete_milestone(&auth, 0), Ok(()));
    assert_eq!(c.approve_milestone(&auth, 0), Ok(()));

    let campaign_data = c.get_campaign_details();
    assert_eq!(campaign_data.current_amount, 100);
    assert!(campaign_data.milestones[0].approved);
}

#[test]
fn test_initialize_scenario_details() {
    let auth = full_auth();
    let mut c = initialized(vec![30, 40, 30], 100);

    let before = c.get_campaign_details();
    assert_eq!(before.creator, creator());
    assert_eq!(before.admin, admin());
    assert_eq!(before.target_amount, 100);
    assert_eq!(before.current_amount, 0);
    assert!(before.is_active);
    assert_eq!(before.milestones.len(), 3);
    for (m, pct) in before.milestones.iter().zip([30u32, 40, 30]) {
        assert_eq!(m.percentage, pct);
        assert!(!m.completed);
        assert!(!m.approved);
    }

    assert_eq!(c.donate(&auth, donor(), 100), Ok(()));
    assert_eq!(c.get_campaign_details().current_amount, 100);

    assert_eq!(c.complete_milestone(&auth, 0), Ok(()));
    assert_eq!(c.approve_milestone(&auth, 0), Ok(()));

    let after = c.get_campaign_details();
    assert!(after.milestones[0].completed);
    assert!(after.milestones[0].approved);
    assert_eq!(after.milestones[0].percentage, 30);
    for m in &after.milestones[1..] {
        assert!(!m.completed);
        assert!(!m.approved);
    }
    assert_eq!(after.current_amount, 100);
}

#[test]
fn test_initialize_rejects_wrong_sum() {
    let auth = full_auth();
    let mut c = Campaign::new();
    let r = c.initialize(&auth, creator(), admin(), 100, vec![30, 30]);
    assert_eq!(r, Err(Error::InvalidMilestonePercentages));
    // Nothing was committed: a detail lookup would abort the invocation.
    assert!(c.data.is_none());
}

#[test]
fn test_initialize_sum_edges() {
    let auth = full_auth();

    let mut exact = Campaign::new();
    assert_eq!(exact.initialize(&auth, creator(), admin(), 7, vec![100]), Ok(()));
    assert_eq!(exact.get_campaign_details().milestones.len(), 1);

    let mut halves = Campaign::new();
    assert_eq!(halves.initialize(&auth, creator(), admin(), 7, vec![50, 50]), Ok(()));

    let mut empty = Campaign::new();
    assert_eq!(
        empty.initialize(&auth, creator(), admin(), 7, vec![]),
        Err(Error::InvalidMilestonePercentages)
    );
    assert!(empty.data.is_none());

    let mut over = Campaign::new();
    assert_eq!(
        over.initialize(&auth, creator(), admin(), 7, vec![50, 50, 1]),
        Err(Error::InvalidMilestonePercentages)
    );
    assert!(over.data.is_none());
}

#[test]
fn test_initialize_overwrites_prior_state() {
    let auth = full_auth();
    let mut c = initialized(vec![100], 50);
    assert_eq!(c.donate(&auth, donor(), 25), Ok(()));

    // A second initialization silently replaces the whole aggregate.
    assert_eq!(c.initialize(&auth, creator(), admin(), 200, vec![60, 40]), Ok(()));
    let d = c.get_campaign_details();
    assert_eq!(d.target_amount, 200);
    assert_eq!(d.current_amount, 0);
    assert_eq!(d.milestones.len(), 2);
}

#[test]
fn test_donation_totals_accumulate() {
    let auth = full_auth();
    let mut c = initialized(vec![100], 1000);
    assert_eq!(c.donate(&auth, donor(), 10), Ok(()));
    assert_eq!(c.donate(&auth, donor(), 20), Ok(()));
    assert_eq!(c.donate(&auth, donor(), 30), Ok(()));
    assert_eq!(c.get_campaign_details().current_amount, 60);

    // Amounts are not validated: zero and negative donations are accepted.
    assert_eq!(c.donate(&auth, donor(), 0), Ok(()));
    assert_eq!(c.donate(&auth, donor(), -5), Ok(()));
    assert_eq!(c.get_campaign_details().current_amount, 55);

    // Donations past the target are accepted too.
    assert_eq!(c.donate(&auth, donor(), 10_000), Ok(()));
    assert_eq!(c.get_campaign_details().current_amount, 10_055);
}

#[test]
fn test_donate_inactive_campaign() {
    let auth = full_auth();
    // No exposed operation deactivates a campaign, so build an inactive
    // aggregate directly in the store.
    let mut c = Campaign {
        data: Some(CampaignData {
            creator: creator(),
            admin: admin(),
            target_amount: 100,
            current_amount: 40,
            milestones: vec![Milestone { percentage: 100, completed: false, approved: false }],
            is_active: false,
        }),
    };
    assert_eq!(c.donate(&auth, donor(), 10), Err(Error::CampaignInactive));
    assert_eq!(c.get_campaign_details().current_amount, 40);
}

#[test]
fn test_complete_twice() {
    let auth = full_auth();
    let mut c = initialized(vec![60, 40], 100);
    assert_eq!(c.complete_milestone(&auth, 1), Ok(()));
    assert_eq!(c.complete_milestone(&auth, 1), Err(Error::MilestoneAlreadyCompleted));
    let d = c.get_campaign_details();
    assert!(d.milestones[1].completed);
    assert!(!d.milestones[0].completed);
}

#[test]
fn test_approve_before_complete() {
    let auth = full_auth();
    let mut c = initialized(vec![60, 40], 100);
    assert_eq!(c.approve_milestone(&auth, 0), Err(Error::MilestoneNotCompleted));
    let d = c.get_campaign_details();
    assert!(!d.milestones[0].approved);
}

#[test]
fn test_approve_twice() {
    let auth = full_auth();
    let mut c = initialized(vec![60, 40], 100);
    assert_eq!(c.complete_milestone(&auth, 0), Ok(()));
    assert_eq!(c.approve_milestone(&auth, 0), Ok(()));
    assert_eq!(c.approve_milestone(&auth, 0), Err(Error::MilestoneAlreadyApproved));
    let d = c.get_campaign_details();
    assert!(d.milestones[0].completed && d.milestones[0].approved);
}

#[test]
fn test_auth_proofs_carry_granted_identities() {
    let mut auth = AuthProofs::new();
    assert!(!auth.carries(creator()));
    auth.grant(creator());
    assert!(auth.carries(creator()));
    assert!(!auth.carries(donor()));
    auth.grant(donor());
    assert!(auth.carries(creator()));
    assert!(auth.carries(donor()));
}

#[test]
fn test_get_campaign_details_returns_full_copy() {
    let auth = full_auth();
    let mut c = initialized(vec![25, 25, 50], 500);
    assert_eq!(c.donate(&auth, donor(), 123), Ok(()));
    assert_eq!(c.complete_milestone(&auth, 2), Ok(()));

    let d = c.get_campaign_details();
    let stored = c.data.as_ref().unwrap();
    assert_eq!(d.creator, stored.creator);
    assert_eq!(d.admin, stored.admin);
    assert_eq!(d.target_amount, stored.target_amount);
    assert_eq!(d.current_amount, stored.current_amount);
    assert_eq!(d.is_active, stored.is_active);
    assert_eq!(d.milestones, stored.milestones);
}
