use vstd::prelude::*;
use vstd::string::StringSliceAdditionalSpecFns;

verus! {

/// The most milestones a project may declare at creation.
pub const MAX_MILESTONES: usize = 10;

/// A 256-bit account identity, as four little-endian 64-bit words.
///
/// This is the key under which the host ledger and store address accounts.
/// The state machine only ever compares identities for equality.
#[derive(Clone, Copy, Debug, PartialEq, Eq, Structural)]
pub struct AccountId {
    pub w0: u64,
    pub w1: u64,
    pub w2: u64,
    pub w3: u64,
}

/// A named, funded sub-goal of a project.
///
/// Completing a milestone releases `amount` to the owner exactly once:
/// `completed` is a one-way latch that guards against re-release.
#[derive(Clone, Debug)]
pub struct Milestone {
    pub title: String,
    pub description: String,
    pub amount: u64,
    /// Advisory only: no transition checks it against the current time.
    pub deadline: i64,
    pub completed: bool,
}

impl Milestone {
    /// This milestone as stored at creation: the release latch cleared.
    pub open spec fn reset(self) -> Milestone {
        Milestone { completed: false, ..self }
    }

    /// This milestone with its release latch set.
    pub open spec fn mark_completed(self) -> Milestone {
        Milestone { completed: true, ..self }
    }
}

/// A crowdfunding campaign record: goal, accumulated funds, milestones,
/// active flag. One record exists per owner identity.
#[derive(Clone, Debug)]
pub struct Project {
    /// Sole authority for pause and milestone release; immutable after creation.
    pub owner: AccountId,
    pub name: String,
    pub description: String,
    /// Informational target (> 0); donations are not capped by it.
    pub funding_goal: u64,
    /// Floor for any single donation.
    pub minimum_donation: u64,
    /// Sum of all accepted donation amounts; monotonically non-decreasing.
    pub total_raised: u64,
    /// Fixed at creation: no milestone is added or removed afterwards.
    pub milestones: Vec<Milestone>,
    /// True at creation; may only transition true to false, never back.
    pub is_active: bool,
    /// Timestamp captured at creation, immutable.
    pub created_at: i64,
    /// Seed bump under which the record's address was derived.
    pub bump: u8,
}

impl Project {
    /// Well-formedness: the milestone list respects the creation-time cap.
    pub open spec fn wf(self) -> bool {
        self.milestones@.len() <= MAX_MILESTONES
    }

    /// The storage space a record needs: a fixed-size header and milestone
    /// arena plus the literal length of the two text fields, reserved up
    /// front since the record cannot grow after allocation.
    pub fn space(name: &str, description: &str) -> (r: usize)
        requires
            name.spec_bytes().len() + description.spec_bytes().len() + 976 <= usize::MAX,
        ensures
            r == 976 + name.spec_bytes().len() + description.spec_bytes().len(),
    {
        8 + // record discriminator
        32 + // owner identity
        4 + name.len() + // name, length-prefixed
        4 + description.len() + // description, length-prefixed
        8 + // funding_goal
        8 + // minimum_donation
        8 + // total_raised
        4 + 10 * (4 + 32 + 4 + 32 + 8 + 8 + 1) + // milestone arena
        1 + // is_active
        8 + // created_at
        1 // bump
    }
}

/// The fields that no operation ever changes after `initialize_project`.
pub open spec fn fixed_fields_unchanged(pre: Project, post: Project) -> bool {
    &&& post.owner == pre.owner
    &&& post.name == pre.name
    &&& post.description == pre.description
    &&& post.funding_goal == pre.funding_goal
    &&& post.minimum_donation == pre.minimum_donation
    &&& post.created_at == pre.created_at
    &&& post.bump == pre.bump
}

/// Once a project is inactive it stays inactive: `is_active` never
/// transitions false to true.
pub open spec fn inactive_preserved(pre: Project, post: Project) -> bool {
    !pre.is_active ==> !post.is_active
}

/// A completed milestone stays completed: the latch never reverts, and the
/// milestone list never changes length.
pub open spec fn completion_preserved(pre: Project, post: Project) -> bool {
    &&& post.milestones@.len() == pre.milestones@.len()
    &&& forall|j: int|
        0 <= j < pre.milestones@.len() && pre.milestones@[j].completed
            ==> #[trigger] post.milestones@[j].completed
}

} // verus!
