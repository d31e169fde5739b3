//! A value-custody state machine for crowdfunding campaigns.
//!
//! A `Project` tracks a funding target, accumulates donated value toward it,
//! and releases portions of the accumulated value to the campaign owner only
//! when discrete milestones are marked complete. The library holds the whole
//! decision logic — validation, donation accounting, milestone-gated release,
//! and authorization/pause control — as verified functions over plain values.
//! The host that actually moves funds between accounts, keeps each `Project`
//! record durably, and supplies the clock drives these functions from outside:
//! it performs a transfer only when `donate_validate` allows it, and applies
//! the balance movements that `complete_milestone` returns.

pub mod errors;
pub mod events;
pub mod laws;
pub mod ops;
pub mod project;

pub use errors::CrowdfundingError;
pub use events::DonationEvent;
pub use events::MilestoneCompletedEvent;
pub use ops::complete_milestone;
pub use ops::donate;
pub use ops::donate_validate;
pub use ops::emergency_pause;
pub use ops::initialize_project;
pub use ops::MilestoneRelease;
pub use project::AccountId;
pub use project::Milestone;
pub use project::Project;
pub use project::MAX_MILESTONES;
