use vstd::prelude::*;

verus! {

/// The failure kinds of the crowdfunding state machine.
///
/// Every operation reports the first violated condition as one of these, and
/// each kind maps one-to-one to a stable message so callers can branch on it.
#[derive(Clone, Copy, Debug, PartialEq, Eq, Structural)]
pub enum CrowdfundingError {
    /// The project has been paused and accepts no new donations.
    ProjectInactive,
    /// The donated amount is below the project's minimum donation.
    DonationTooSmall,
    /// The funding goal of a new project must be positive.
    InvalidFundingGoal,
    /// A new project may declare at most `MAX_MILESTONES` milestones.
    TooManyMilestones,
    /// The milestone index is not within the project's milestone list.
    InvalidMilestoneIndex,
    /// The milestone's funds have already been released.
    MilestoneAlreadyCompleted,
    /// The custody balance cannot cover the milestone's amount.
    InsufficientFunds,
    /// The caller is not the project's owner.
    UnauthorizedAccess,
    /// The arithmetic would exceed the representable range.
    Overflow,
}

impl CrowdfundingError {
    /// The stable, user-visible message for this error kind.
    pub fn message(&self) -> (r: &'static str)
        ensures
            *self is ProjectInactive ==> r@ == "Project is not active"@,
            *self is DonationTooSmall ==> r@ == "Donation amount is below minimum"@,
            *self is InvalidFundingGoal ==> r@ == "Invalid funding goal"@,
            *self is TooManyMilestones ==> r@ == "Too many milestones"@,
            *self is InvalidMilestoneIndex ==> r@ == "Invalid milestone index"@,
            *self is MilestoneAlreadyCompleted ==> r@ == "Milestone already completed"@,
            *self is InsufficientFunds ==> r@ == "Insufficient funds"@,
            *self is UnauthorizedAccess ==> r@ == "Unauthorized access"@,
            *self is Overflow ==> r@ == "Arithmetic overflow"@,
    {
        match self {
            CrowdfundingError::ProjectInactive => "Project is not active",
            CrowdfundingError::DonationTooSmall => "Donation amount is below minimum",
            CrowdfundingError::InvalidFundingGoal => "Invalid funding goal",
            CrowdfundingError::TooManyMilestones => "Too many milestones",
            CrowdfundingError::InvalidMilestoneIndex => "Invalid milestone index",
            CrowdfundingError::MilestoneAlreadyCompleted => "Milestone already completed",
            CrowdfundingError::InsufficientFunds => "Insufficient funds",
            CrowdfundingError::UnauthorizedAccess => "Unauthorized access",
            CrowdfundingError::Overflow => "Arithmetic overflow",
        }
    }
}

} // verus!
