use vstd::prelude::*;
use crate::project::AccountId;

verus! {

/// Appended to the audit log after every accepted donation.
#[derive(Clone, Copy, Debug, PartialEq, Eq, Structural)]
pub struct DonationEvent {
    pub project: AccountId,
    pub donor: AccountId,
    pub amount: u64,
    pub timestamp: i64,
}

/// Appended to the audit log after every milestone release.
#[derive(Clone, Copy, Debug, PartialEq, Eq, Structural)]
pub struct MilestoneCompletedEvent {
    pub project: AccountId,
    pub milestone_index: u8,
    pub amount: u64,
    pub timestamp: i64,
}

} // verus!
