use vstd::prelude::*;

use crate::errors::CrowdfundingError;
use crate::events::DonationEvent;
use crate::events::MilestoneCompletedEvent;
use crate::project::AccountId;
use crate::project::Milestone;
use crate::project::Project;
use crate::project::MAX_MILESTONES;
use crate::project::completion_preserved;
use crate::project::fixed_fields_unchanged;
use crate::project::inactive_preserved;

verus! {

/// The balance movements and audit event of one successful milestone
/// release: the new custody balance of the project, the new external
/// balance of the owner, and the event to append to the log.
#[derive(Clone, Copy, Debug, PartialEq, Eq, Structural)]
pub struct MilestoneRelease {
    pub custody_balance: u64,
    pub owner_balance: u64,
    pub event: MilestoneCompletedEvent,
}

/// Creates a fresh project record for `owner`.
///
/// The host must have checked that no record exists yet at the owner's
/// derived address (re-initialization is a storage-level failure), and it
/// supplies the creation timestamp `now` and the address-derivation `bump`.
/// The milestone list is fixed from here on; every milestone is stored with
/// its release latch cleared, whatever the caller put in the flag.
pub fn initialize_project(
    owner: AccountId,
    name: String,
    description: String,
    funding_goal: u64,
    minimum_donation: u64,
    milestones: Vec<Milestone>,
    now: i64,
    bump: u8,
) -> (r: Result<Project, CrowdfundingError>)
    ensures
        milestones@.len() > MAX_MILESTONES ==> r == Err::<Project, CrowdfundingError>(
            CrowdfundingError::TooManyMilestones,
        ),
        milestones@.len() <= MAX_MILESTONES && funding_goal == 0 ==> r == Err::<
            Project,
            CrowdfundingError,
        >(CrowdfundingError::InvalidFundingGoal),
        milestones@.len() <= MAX_MILESTONES && funding_goal > 0 ==> (r matches Ok(p) && {
            &&& p.owner == owner
            &&& p.name == name
            &&& p.description == description
            &&& p.funding_goal == funding_goal
            &&& p.minimum_donation == minimum_donation
            &&& p.total_raised == 0
            &&& p.milestones@.len() == milestones@.len()
            &&& forall|j: int|
                0 <= j < milestones@.len() ==> p.milestones@[j] == milestones@[j].reset()
            &&& p.is_active
            &&& p.created_at == now
            &&& p.bump == bump
            &&& p.wf()
        }),
{
    if milestones.len() > MAX_MILESTONES {
        return Err(CrowdfundingError::TooManyMilestones);
    }
    if funding_goal == 0 {
        return Err(CrowdfundingError::InvalidFundingGoal);
    }
    let mut cleared = milestones;
    let ghost orig = cleared@;
    let n = cleared.len();
    let mut i: usize = 0;
    while i < n
        invariant
            n == cleared@.len(),
            orig.len() == n,
            i <= n,
            forall|j: int| 0 <= j < i ==> cleared@[j] == orig[j].reset(),
            forall|j: int| i <= j < n ==> cleared@[j] == orig[j],
        decreases n - i,
    {
        let m = &mut cleared[i];
        m.completed = false;
        i += 1;
    }
    Ok(
        Project {
            owner,
            name,
            description,
            funding_goal,
            minimum_donation,
            total_raised: 0,
            milestones: cleared,
            is_active: true,
            created_at: now,
            bump,
        },
    )
}

/// Decides whether a donation of `amount` may proceed, without touching any
/// state. The host calls this first; only on `Ok` does it perform the
/// ledger transfer of `amount` from the donor into the project's custody,
/// and only on transfer success does it apply `donate`.
pub fn donate_validate(project: &Project, amount: u64) -> (r: Result<(), CrowdfundingError>)
    ensures
        r == if !project.is_active {
            Err::<(), CrowdfundingError>(CrowdfundingError::ProjectInactive)
        } else if amount < project.minimum_donation {
            Err::<(), CrowdfundingError>(CrowdfundingError::DonationTooSmall)
        } else {
            Ok::<(), CrowdfundingError>(())
        },
{
    if !project.is_active {
        return Err(CrowdfundingError::ProjectInactive);
    }
    if amount < project.minimum_donation {
        return Err(CrowdfundingError::DonationTooSmall);
    }
    Ok(())
}

/// Records an accepted donation of `amount` from `donor`.
///
/// Applied by the host after the ledger transfer into custody succeeded;
/// it re-checks the same conditions `donate_validate` decides, so a project
/// that was paused rejects the donation here as well. On success the total
/// raised grows by exactly `amount`; the addition is overflow-checked and
/// `Overflow` leaves the record unchanged. Open to any caller: no owner
/// check applies to donations.
pub fn donate(
    project: &mut Project,
    project_key: AccountId,
    donor: AccountId,
    amount: u64,
    now: i64,
) -> (r: Result<DonationEvent, CrowdfundingError>)
    ensures
        fixed_fields_unchanged(*old(project), *final(project)),
        final(project).milestones@ == old(project).milestones@,
        final(project).is_active == old(project).is_active,
        completion_preserved(*old(project), *final(project)),
        inactive_preserved(*old(project), *final(project)),
        !old(project).is_active ==> r == Err::<DonationEvent, CrowdfundingError>(
            CrowdfundingError::ProjectInactive,
        ) && *final(project) == *old(project),
        old(project).is_active && amount < old(project).minimum_donation ==> r == Err::<
            DonationEvent,
            CrowdfundingError,
        >(CrowdfundingError::DonationTooSmall) && *final(project) == *old(project),
        old(project).is_active && amount >= old(project).minimum_donation && old(
            project,
        ).total_raised + amount > u64::MAX ==> r == Err::<DonationEvent, CrowdfundingError>(
            CrowdfundingError::Overflow,
        ) && *final(project) == *old(project),
        old(project).is_active && amount >= old(project).minimum_donation && old(
            project,
        ).total_raised + amount <= u64::MAX ==> {
            &&& *final(project) == (Project {
                total_raised: (old(project).total_raised + amount) as u64,
                ..*old(project)
            })
            &&& r == Ok::<DonationEvent, CrowdfundingError>(
                (DonationEvent { project: project_key, donor, amount, timestamp: now }),
            )
        },
{
    if !project.is_active {
        return Err(CrowdfundingError::ProjectInactive);
    }
    if amount < project.minimum_donation {
        return Err(CrowdfundingError::DonationTooSmall);
    }
    match project.total_raised.checked_add(amount) {
        Some(new_total) => {
            project.total_raised = new_total;
            Ok(DonationEvent { project: project_key, donor, amount, timestamp: now })
        },
        None => Err(CrowdfundingError::Overflow),
    }
}

/// Releases the funds of one milestone to the owner.
///
/// Only the recorded owner may release, the index must address a declared
/// milestone, and each milestone releases at most once. The release latch
/// is set before the balances move, so a failed movement cannot be retried
/// into a double release: on `InsufficientFunds` or `Overflow` the latch
/// stays set and no funds move. Pausing a project does not block release.
/// On success the host applies the returned balances and appends the event.
pub fn complete_milestone(
    project: &mut Project,
    project_key: AccountId,
    caller: AccountId,
    milestone_index: u8,
    custody_balance: u64,
    owner_balance: u64,
    now: i64,
) -> (r: Result<MilestoneRelease, CrowdfundingError>)
    requires
        old(project).wf(),
    ensures
        final(project).wf(),
        fixed_fields_unchanged(*old(project), *final(project)),
        final(project).is_active == old(project).is_active,
        final(project).total_raised == old(project).total_raised,
        completion_preserved(*old(project), *final(project)),
        inactive_preserved(*old(project), *final(project)),
        caller != old(project).owner ==> r == Err::<MilestoneRelease, CrowdfundingError>(
            CrowdfundingError::UnauthorizedAccess,
        ) && *final(project) == *old(project),
        caller == old(project).owner && (milestone_index as int) >= old(
            project,
        ).milestones@.len() ==> r == Err::<MilestoneRelease, CrowdfundingError>(
            CrowdfundingError::InvalidMilestoneIndex,
        ) && *final(project) == *old(project),
        caller == old(project).owner && (milestone_index as int) < old(project).milestones@.len()
            && old(project).milestones@[milestone_index as int].completed ==> r == Err::<
            MilestoneRelease,
            CrowdfundingError,
        >(CrowdfundingError::MilestoneAlreadyCompleted) && *final(project) == *old(project),
        caller == old(project).owner && (milestone_index as int) < old(project).milestones@.len()
            && !old(project).milestones@[milestone_index as int].completed ==> {
            &&& final(project).milestones@ == old(project).milestones@.update(
                milestone_index as int,
                old(project).milestones@[milestone_index as int].mark_completed(),
            )
            &&& ({
                let amount = old(project).milestones@[milestone_index as int].amount;
                if custody_balance < amount {
                    r == Err::<MilestoneRelease, CrowdfundingError>(
                        CrowdfundingError::InsufficientFunds,
                    )
                } else if owner_balance + amount > u64::MAX {
                    r == Err::<MilestoneRelease, CrowdfundingError>(CrowdfundingError::Overflow)
                } else {
                    r == Ok::<MilestoneRelease, CrowdfundingError>(
                        (MilestoneRelease {
                            custody_balance: (custody_balance - amount) as u64,
                            owner_balance: (owner_balance + amount) as u64,
                            event: (MilestoneCompletedEvent {
                                project: project_key,
                                milestone_index,
                                amount,
                                timestamp: now,
                            }),
                        }),
                    )
                }
            })
        },
{
    if caller != project.owner {
        return Err(CrowdfundingError::UnauthorizedAccess);
    }
    let i = milestone_index as usize;
    if i >= project.milestones.len() {
        return Err(CrowdfundingError::InvalidMilestoneIndex);
    }
    if project.milestones[i].completed {
        return Err(CrowdfundingError::MilestoneAlreadyCompleted);
    }
    let amount = project.milestones[i].amount;
    let m = &mut project.milestones[i];
    m.completed = true;
    let new_custody = match custody_balance.checked_sub(amount) {
        Some(v) => v,
        None => {
            return Err(CrowdfundingError::InsufficientFunds);
        },
    };
    let new_owner = match owner_balance.checked_add(amount) {
        Some(v) => v,
        None => {
            return Err(CrowdfundingError::Overflow);
        },
    };
    Ok(
        MilestoneRelease {
            custody_balance: new_custody,
            owner_balance: new_owner,
            event: MilestoneCompletedEvent {
                project: project_key,
                milestone_index,
                amount,
                timestamp: now,
            },
        },
    )
}

/// Irreversibly deactivates the project: no donation is accepted afterwards.
///
/// Only the recorded owner may pause; an unauthorized caller changes
/// nothing. Pausing does not block milestone release and does not delete
/// the record. No resume operation exists.
pub fn emergency_pause(project: &mut Project, caller: AccountId) -> (r: Result<
    (),
    CrowdfundingError,
>)
    ensures
        fixed_fields_unchanged(*old(project), *final(project)),
        final(project).milestones@ == old(project).milestones@,
        final(project).total_raised == old(project).total_raised,
        completion_preserved(*old(project), *final(project)),
        inactive_preserved(*old(project), *final(project)),
        caller != old(project).owner ==> r == Err::<(), CrowdfundingError>(
            CrowdfundingError::UnauthorizedAccess,
        ) && *final(project) == *old(project),
        caller == old(project).owner ==> r == Ok::<(), CrowdfundingError>(()) && *final(project)
            == (Project { is_active: false, ..*old(project) }),
{
    if caller != project.owner {
        return Err(CrowdfundingError::UnauthorizedAccess);
    }
    project.is_active = false;
    Ok(())
}

} // verus!
