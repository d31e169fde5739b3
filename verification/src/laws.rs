use vstd::prelude::*;

use crate::project::completion_preserved;
use crate::project::inactive_preserved;
use crate::project::Project;

verus! {

/// The sum of a sequence of donation amounts, as an unbounded integer.
pub open spec fn total_of(amounts: Seq<u64>) -> int
    decreases amounts.len(),
{
    if amounts.len() == 0 {
        0
    } else {
        amounts[0] + total_of(amounts.drop_first())
    }
}

/// The state change of one accepted donation of `amount`: exactly what
/// `donate` establishes whenever it returns `Ok`.
pub open spec fn donation_accepted(pre: Project, post: Project, amount: u64) -> bool {
    &&& pre.is_active
    &&& amount >= pre.minimum_donation
    &&& pre.total_raised + amount <= u64::MAX
    &&& post == (Project { total_raised: (pre.total_raised + amount) as u64, ..pre })
}

/// Donation accounting law: across any run of accepted donations, the total
/// raised grows by exactly the sum of the accepted amounts — no donation is
/// lost, none is counted twice. `states` is the chain of project records,
/// `amounts[k]` the donation accepted between `states[k]` and
/// `states[k + 1]`; each link is the relation that `donate` ensures on
/// success.
pub proof fn lemma_total_raised_is_sum(states: Seq<Project>, amounts: Seq<u64>)
    requires
        states.len() == amounts.len() + 1,
        forall|k: int|
            0 <= k < amounts.len() ==> donation_accepted(
                states[k],
                states[k + 1],
                #[trigger] amounts[k],
            ),
    ensures
        states.last().total_raised == states.first().total_raised + total_of(amounts),
    decreases amounts.len(),
{
    if amounts.len() == 0 {
        assert(states.last() == states.first());
    } else {
        let tail_states = states.drop_first();
        let tail_amounts = amounts.drop_first();
        assert(donation_accepted(states[0], states[1], amounts[0]));
        assert forall|k: int| 0 <= k < tail_amounts.len() implies donation_accepted(
            tail_states[k],
            tail_states[k + 1],
            #[trigger] tail_amounts[k],
        ) by {
            assert(donation_accepted(states[k + 1], states[k + 2], amounts[k + 1]));
        }
        lemma_total_raised_is_sum(tail_states, tail_amounts);
        assert(tail_states.last() == states.last());
        assert(tail_states.first() == states[1]);
    }
}

/// Removing one element removes exactly its contribution from the sum.
pub proof fn lemma_total_of_remove(s: Seq<u64>, j: int)
    requires
        0 <= j < s.len(),
    ensures
        total_of(s.remove(j)) == total_of(s) - s[j],
    decreases s.len(),
{
    if j == 0 {
        assert(s.remove(0) =~= s.drop_first());
    } else {
        assert(s.remove(j).drop_first() =~= s.drop_first().remove(j - 1));
        lemma_total_of_remove(s.drop_first(), j - 1);
        assert(s.remove(j)[0] == s[0]);
    }
}

/// Order-independence of donation accounting: two runs that accept the same
/// amounts, in whatever order, raise the same total.
pub proof fn lemma_total_of_permutation(a: Seq<u64>, b: Seq<u64>)
    requires
        a.to_multiset() == b.to_multiset(),
    ensures
        total_of(a) == total_of(b),
    decreases a.len(),
{
    broadcast use vstd::seq_lib::group_to_multiset_ensures;

    if a.len() == 0 {
        assert(b.to_multiset().len() == 0);
        assert(b.len() == 0);
    } else {
        let x = a[0];
        assert(a.contains(x));
        assert(b.to_multiset().count(x) > 0);
        assert(b.contains(x));
        let j = choose|j: int| 0 <= j < b.len() && b[j] == x;
        assert(a.remove(0).to_multiset() =~= a.to_multiset().remove(x));
        assert(b.remove(j).to_multiset() =~= b.to_multiset().remove(x));
        lemma_total_of_permutation(a.remove(0), b.remove(j));
        lemma_total_of_remove(a, 0);
        lemma_total_of_remove(b, j);
    }
}

/// Pause is permanent: once a project record is inactive, it stays inactive
/// across any chain of operations. Every operation of this library ensures
/// `inactive_preserved` between its pre- and post-state, and `donate`
/// rejects every donation on an inactive record with `ProjectInactive`, so
/// after a successful `emergency_pause` no later donation ever succeeds.
pub proof fn lemma_pause_is_permanent(states: Seq<Project>)
    requires
        states.len() > 0,
        !states.first().is_active,
        forall|k: int|
            0 <= k < states.len() - 1 ==> inactive_preserved(#[trigger] states[k], states[k + 1]),
    ensures
        !states.last().is_active,
    decreases states.len(),
{
    if states.len() > 1 {
        let tail = states.drop_first();
        assert(inactive_preserved(states[0], states[1]));
        assert(tail.first() == states[1]);
        assert forall|k: int| 0 <= k < tail.len() - 1 implies inactive_preserved(
            #[trigger] tail[k],
            tail[k + 1],
        ) by {
            assert(inactive_preserved(states[k + 1], states[k + 2]));
        }
        lemma_pause_is_permanent(tail);
        assert(tail.last() == states.last());
    }
}

/// The release latch is permanent: once milestone `i` is completed, it is
/// still completed after any chain of operations. Every operation of this
/// library ensures `completion_preserved` between its pre- and post-state,
/// and `complete_milestone` answers `MilestoneAlreadyCompleted` for a
/// completed milestone, so a milestone's funds are released at most once
/// however many times and in whatever order the operations run.
pub proof fn lemma_completion_is_permanent(states: Seq<Project>, i: int)
    requires
        states.len() > 0,
        0 <= i < states.first().milestones@.len(),
        states.first().milestones@[i].completed,
        forall|k: int|
            0 <= k < states.len() - 1 ==> completion_preserved(
                #[trigger] states[k],
                states[k + 1],
            ),
    ensures
        states.last().milestones@.len() == states.first().milestones@.len(),
        states.last().milestones@[i].completed,
    decreases states.len(),
{
    if states.len() > 1 {
        let tail = states.drop_first();
        assert(completion_preserved(states[0], states[1]));
        assert(tail.first() == states[1]);
        assert forall|k: int| 0 <= k < tail.len() - 1 implies completion_preserved(
            #[trigger] tail[k],
            tail[k + 1],
        ) by {
            assert(completion_preserved(states[k + 1], states[k + 2]));
        }
        lemma_completion_is_permanent(tail, i);
        assert(tail.last() == states.last());
    }
}

} // verus!
