use solana_crowdfunding::complete_milestone;
use solana_crowdfunding::donate;
use solana_crowdfunding::donate_validate;
use solana_crowdfunding::emergency_pause;
use solana_crowdfunding::initialize_project;
use solana_crowdfunding::AccountId;
use solana_crowdfunding::CrowdfundingError;
use solana_crowdfunding::Milestone;
use solana_crowdfunding::Project;

fn acct(n: u64) -> AccountId {
    AccountId { w0: n, w1: 0, w2: 0, w3: 0 }
}

fn milestone(title: &str, amount: u64) -> Milestone {
    Milestone {
        title: title.to_string(),
        description: format!("{} description", title),
        amount,
        deadline: 0,
        completed: false,
    }
}

/// A fresh two-milestone project: goal 1000, minimum donation 10,
/// milestone amounts 100 and 200, owned by `acct(1)`.
fn sample_project() -> Project {
    initialize_project(
        acct(1),
        "roof".to_string(),
        "a new roof".to_string(),
        1000,
        10,
        vec![milestone("first", 100), milestone("second", 200)],
        77,
        254,
    )
    .expect("creation must succeed")
}

#[test]
fn scenario_full_lifecycle() {
    let owner = acct(1);
    let outsider = acct(2);
    let donor = acct(3);
    let key = acct(9);
    let mut p = sample_project();
    assert_eq!(p.total_raised, 0);
    assert!(p.is_active);

    let ev = donate(&mut p, key, donor, 10, 100).expect("donation at the minimum is accepted");
    assert_eq!(p.total_raised, 10);
    assert_eq!(ev.project, key);
    assert_eq!(ev.donor, donor);
    assert_eq!(ev.amount, 10);
    assert_eq!(ev.timestamp, 100);

    let r = donate(&mut p, key, donor, 5, 101);
    assert_eq!(r, Err(CrowdfundingError::DonationTooSmall));
    assert_eq!(p.total_raised, 10);

    let rel = complete_milestone(&mut p, key, owner, 0, 150, 1000, 102)
        .expect("first release succeeds");
    assert!(p.milestones[0].completed);
    assert_eq!(rel.custody_balance, 50);
    assert_eq!(rel.owner_balance, 1100);
    assert_eq!(rel.event.milestone_index, 0);
    assert_eq!(rel.event.amount, 100);

    let r = complete_milestone(&mut p, key, owner, 0, 50, 1100, 103);
    assert_eq!(r, Err(CrowdfundingError::MilestoneAlreadyCompleted));

    let r = emergency_pause(&mut p, outsider);
    assert_eq!(r, Err(CrowdfundingError::UnauthorizedAccess));
    assert!(p.is_active);

    emergency_pause(&mut p, owner).expect("the owner may pause");
    assert!(!p.is_active);

    let r = donate(&mut p, key, donor, 10, 104);
    assert_eq!(r, Err(CrowdfundingError::ProjectInactive));
    assert_eq!(p.total_raised, 10);
}

#[test]
fn complete_milestone_insufficient_funds_in_scenario() {
    let mut p = sample_project();
    let r = complete_milestone(&mut p, acct(9), acct(1), 0, 99, 0, 1);
    assert_eq!(r, Err(CrowdfundingError::InsufficientFunds));
    // The release latch is set before the funds move and stays set.
    assert!(p.milestones[0].completed);
}

#[test]
fn donation_at_minimum_is_accepted_below_rejected() {
    let mut p = sample_project();
    assert!(donate(&mut p, acct(9), acct(3), 10, 1).is_ok());
    assert_eq!(p.total_raised, 10);
    let r = donate(&mut p, acct(9), acct(3), 9, 2);
    assert_eq!(r, Err(CrowdfundingError::DonationTooSmall));
    assert_eq!(p.total_raised, 10);
}

#[test]
fn donate_validate_agrees_with_donate() {
    let mut p = sample_project();
    assert_eq!(donate_validate(&p, 10), Ok(()));
    assert_eq!(donate_validate(&p, 9), Err(CrowdfundingError::DonationTooSmall));
    emergency_pause(&mut p, acct(1)).unwrap();
    assert_eq!(donate_validate(&p, 10), Err(CrowdfundingError::ProjectInactive));
}

#[test]
fn donation_overflow_is_rejected_and_changes_nothing() {
    let mut p = sample_project();
    p.total_raised = u64::MAX - 5;
    let r = donate(&mut p, acct(9), acct(3), 10, 1);
    assert_eq!(r, Err(CrowdfundingError::Overflow));
    assert_eq!(p.total_raised, u64::MAX - 5);
}

#[test]
fn pause_blocks_donations_but_not_release() {
    let owner = acct(1);
    let mut p = sample_project();
    emergency_pause(&mut p, owner).unwrap();
    let r = donate(&mut p, acct(9), acct(3), 50, 1);
    assert_eq!(r, Err(CrowdfundingError::ProjectInactive));
    // Milestone release remains possible on a paused project.
    let rel = complete_milestone(&mut p, acct(9), owner, 1, 500, 0, 2).unwrap();
    assert_eq!(rel.custody_balance, 300);
    assert_eq!(rel.owner_balance, 200);
    assert!(p.milestones[1].completed);
    assert!(!p.is_active);
}

#[test]
fn milestone_releases_at_most_once() {
    let owner = acct(1);
    let mut p = sample_project();
    assert!(complete_milestone(&mut p, acct(9), owner, 1, 1000, 0, 1).is_ok());
    // A second attempt always fails, whatever happened in between.
    donate(&mut p, acct(9), acct(3), 10, 2).unwrap();
    let r = complete_milestone(&mut p, acct(9), owner, 1, 1000, 0, 3);
    assert_eq!(r, Err(CrowdfundingError::MilestoneAlreadyCompleted));
}

#[test]
fn milestone_index_boundaries() {
    let owner = acct(1);
    let mut p = sample_project();
    // One past the end, and far beyond: rejected.
    let r = complete_milestone(&mut p, acct(9), owner, 2, 1000, 0, 1);
    assert_eq!(r, Err(CrowdfundingError::InvalidMilestoneIndex));
    let r = complete_milestone(&mut p, acct(9), owner, 200, 1000, 0, 2);
    assert_eq!(r, Err(CrowdfundingError::InvalidMilestoneIndex));
    // First and last index: accepted.
    assert!(complete_milestone(&mut p, acct(9), owner, 0, 1000, 0, 3).is_ok());
    assert!(complete_milestone(&mut p, acct(9), owner, 1, 1000, 0, 4).is_ok());
}

#[test]
fn owner_balance_overflow_rejects_release() {
    let mut p = sample_project();
    let r = complete_milestone(&mut p, acct(9), acct(1), 0, 1000, u64::MAX, 1);
    assert_eq!(r, Err(CrowdfundingError::Overflow));
}

#[test]
fn unauthorized_callers_change_nothing() {
    let outsider = acct(2);
    let mut p = sample_project();
    donate(&mut p, acct(9), acct(3), 10, 1).unwrap();

    let r = complete_milestone(&mut p, acct(9), outsider, 0, 1000, 0, 2);
    assert_eq!(r, Err(CrowdfundingError::UnauthorizedAccess));
    assert!(!p.milestones[0].completed);
    assert_eq!(p.total_raised, 10);

    let r = emergency_pause(&mut p, outsider);
    assert_eq!(r, Err(CrowdfundingError::UnauthorizedAccess));
    assert!(p.is_active);
}

#[test]
fn creation_rejects_too_many_milestones() {
    let ms: Vec<Milestone> = (0..11).map(|k| milestone("m", k + 1)).collect();
    let r = initialize_project(acct(1), "n".to_string(), "d".to_string(), 1000, 10, ms, 0, 0);
    assert!(matches!(r, Err(CrowdfundingError::TooManyMilestones)));
}

#[test]
fn creation_accepts_exactly_ten_milestones() {
    let ms: Vec<Milestone> = (0..10).map(|k| milestone("m", k + 1)).collect();
    let p = initialize_project(acct(1), "n".to_string(), "d".to_string(), 1000, 10, ms, 0, 0)
        .expect("ten milestones are allowed");
    assert_eq!(p.milestones.len(), 10);
}

#[test]
fn creation_rejects_zero_funding_goal() {
    let r = initialize_project(
        acct(1),
        "n".to_string(),
        "d".to_string(),
        0,
        10,
        vec![milestone("m", 1)],
        0,
        0,
    );
    assert!(matches!(r, Err(CrowdfundingError::InvalidFundingGoal)));
}

#[test]
fn creation_clears_release_latches() {
    let mut pre = milestone("m", 50);
    pre.completed = true;
    let p = initialize_project(
        acct(1),
        "n".to_string(),
        "d".to_string(),
        1000,
        0,
        vec![pre],
        0,
        0,
    )
    .unwrap();
    assert!(!p.milestones[0].completed);
    assert_eq!(p.milestones[0].amount, 50);
    // A zero minimum admits any donation, including zero.
    let mut p = p;
    assert!(donate(&mut p, acct(9), acct(3), 0, 1).is_ok());
    assert_eq!(p.total_raised, 0);
}

#[test]
fn creation_captures_fields() {
    let p = sample_project();
    assert_eq!(p.owner, acct(1));
    assert_eq!(p.name, "roof");
    assert_eq!(p.description, "a new roof");
    assert_eq!(p.funding_goal, 1000);
    assert_eq!(p.minimum_donation, 10);
    assert_eq!(p.created_at, 77);
    assert_eq!(p.bump, 254);
    assert_eq!(p.milestones.len(), 2);
    assert_eq!(p.milestones[1].amount, 200);
    assert_eq!(p.milestones[1].title, "second");
}

#[test]
fn space_fits_literal_content() {
    // Fixed overhead of 976 bytes plus the byte length of the two texts.
    assert_eq!(Project::space("ab", "cde"), 981);
    assert_eq!(Project::space("", ""), 976);
}

#[test]
fn error_messages_are_stable() {
    assert_eq!(CrowdfundingError::ProjectInactive.message(), "Project is not active");
    assert_eq!(CrowdfundingError::DonationTooSmall.message(), "Donation amount is below minimum");
    assert_eq!(CrowdfundingError::InvalidFundingGoal.message(), "Invalid funding goal");
    assert_eq!(CrowdfundingError::TooManyMilestones.message(), "Too many milestones");
    assert_eq!(CrowdfundingError::InvalidMilestoneIndex.message(), "Invalid milestone index");
    assert_eq!(
        CrowdfundingError::MilestoneAlreadyCompleted.message(),
        "Milestone already completed"
    );
    assert_eq!(CrowdfundingError::InsufficientFunds.message(), "Insufficient funds");
    assert_eq!(CrowdfundingError::UnauthorizedAccess.message(), "Unauthorized access");
    assert_eq!(CrowdfundingError::Overflow.message(), "Arithmetic overflow");
}

#[test]
fn totals_add_up_over_many_donations() {
    let mut p = sample_project();
    let amounts = [10u64, 25, 10, 100, 55];
    for (k, a) in amounts.iter().enumerate() {
        donate(&mut p, acct(9), acct(3), *a, k as i64).unwrap();
    }
    assert_eq!(p.total_raised, 200);
}

#[test]
fn totals_do_not_depend_on_donation_order() {
    let mut p1 = sample_project();
    let mut p2 = sample_project();
    for (k, a) in [10u64, 55, 100].iter().enumerate() {
        donate(&mut p1, acct(9), acct(3), *a, k as i64).unwrap();
    }
    for (k, a) in [100u64, 10, 55].iter().enumerate() {
        donate(&mut p2, acct(9), acct(4), *a, k as i64).unwrap();
    }
    assert_eq!(p1.total_raised, p2.total_raised);
    assert_eq!(p1.total_raised, 165);
}
