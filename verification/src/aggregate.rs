//! Quorum aggregation of weighted per-node outcomes.
//!
//! As peer operations complete, their `(weight, success)` outcomes arrive in
//! no particular order.  The aggregator sums the weights of successful
//! outcomes; it declares success once that sum reaches the quorum `2f + 1`,
//! and declares failure once the accumulated successes plus all still
//! pending weight fall short of the quorum, so that no completion order can
//! still reach it.

use vstd::prelude::*;
use crate::bft::{quorum_threshold, spec_quorum};

verus! {

/// The state of a committee-wide operation as seen by the aggregator.
#[derive(Clone, Copy, PartialEq, Eq, Structural, Debug)]
pub enum QuorumDecision {
    /// Neither success nor failure is certain yet.
    Pending,
    /// Successful weight has reached the quorum.
    Success,
    /// No completion order of the pending weight can reach the quorum.
    Failure,
}

/// Sum of the weights of the successful outcomes of a sequence.
pub open spec fn spec_success_weight(outcomes: Seq<(usize, bool)>) -> int
    decreases outcomes.len(),
{
    if outcomes.len() == 0 {
        0
    } else {
        spec_success_weight(outcomes.drop_last()) + if outcomes.last().1 {
            outcomes.last().0 as int
        } else {
            0
        }
    }
}

/// Sum of all weights of a sequence of outcomes.
pub open spec fn spec_total_weight(outcomes: Seq<(usize, bool)>) -> int
    decreases outcomes.len(),
{
    if outcomes.len() == 0 {
        0
    } else {
        spec_total_weight(outcomes.drop_last()) + outcomes.last().0 as int
    }
}

/// Accumulates weighted outcomes of one protocol round and derives the
/// quorum decision.
pub struct QuorumAggregator {
    /// Total shard count of the committee.
    pub n_shards: u16,
    /// Quorum threshold `2f + 1`, derived from `n_shards` at construction.
    pub quorum: u16,
    /// Accumulated weight of successful outcomes.
    pub success_weight: usize,
    /// Weight of operations that have not completed yet.
    pub pending_weight: usize,
}

impl QuorumAggregator {
    /// The cached quorum matches the shard count, and accounted weights
    /// never exceed the shard space.
    pub open spec fn wf(self) -> bool {
        &&& self.n_shards >= 1
        &&& self.quorum == spec_quorum(self.n_shards as nat)
        &&& self.success_weight + self.pending_weight <= self.n_shards
    }

    /// Creates an aggregator for a round over `n_shards` shards: the whole
    /// shard space is pending and no success has been observed.
    pub fn new(n_shards: u16) -> (agg: QuorumAggregator)
        requires
            n_shards >= 1,
        ensures
            agg.wf(),
            agg.n_shards == n_shards,
            agg.success_weight == 0,
            agg.pending_weight == n_shards,
    {
        QuorumAggregator {
            n_shards,
            quorum: quorum_threshold(n_shards),
            success_weight: 0,
            pending_weight: n_shards as usize,
        }
    }

    /// Records one completed outcome: its weight stops being pending, and
    /// counts toward the quorum iff the outcome succeeded.
    pub fn observe(&mut self, weight: usize, success: bool)
        requires
            old(self).wf(),
            weight <= old(self).pending_weight,
        ensures
            final(self).wf(),
            final(self).n_shards == old(self).n_shards,
            final(self).quorum == old(self).quorum,
            final(self).pending_weight == old(self).pending_weight - weight,
            final(self).success_weight == old(self).success_weight + if success {
                weight as int
            } else {
                0
            },
    {
        self.pending_weight = self.pending_weight - weight;
        if success {
            self.success_weight = self.success_weight + weight;
        }
    }

    /// Records a whole batch of completed outcomes, in the order given.
    pub fn observe_all(&mut self, outcomes: &Vec<(usize, bool)>)
        requires
            old(self).wf(),
            spec_total_weight(outcomes@) <= old(self).pending_weight,
        ensures
            final(self).wf(),
            final(self).n_shards == old(self).n_shards,
            final(self).quorum == old(self).quorum,
            final(self).pending_weight == old(self).pending_weight - spec_total_weight(outcomes@),
            final(self).success_weight == old(self).success_weight + spec_success_weight(
                outcomes@,
            ),
    {
        let ghost all = outcomes@;
        proof {
            assert(all.take(0) =~= Seq::<(usize, bool)>::empty());
            assert(all.skip(0) =~= all);
        }
        let mut i: usize = 0;
        while i < outcomes.len()
            invariant
                i <= outcomes.len(),
                outcomes@ == all,
                self.wf(),
                self.n_shards == old(self).n_shards,
                self.quorum == old(self).quorum,
                self.pending_weight == old(self).pending_weight - spec_total_weight(all.take(
                    i as int,
                )),
                self.success_weight == old(self).success_weight + spec_success_weight(all.take(
                    i as int,
                )),
                spec_total_weight(all.take(i as int)) + spec_total_weight(all.skip(i as int))
                    == spec_total_weight(all),
                spec_total_weight(all) <= old(self).pending_weight,
            decreases outcomes.len() - i,
        {
            proof {
                lemma_weight_take_step(all, i as int);
                lemma_total_weight_skip_nonneg(all, i as int + 1);
                lemma_weight_skip_step(all, i as int);
            }
            let (weight, success) = outcomes[i];
            self.observe(weight, success);
            i = i + 1;
        }
        proof {
            assert(all.take(outcomes@.len() as int) =~= all);
        }
    }

    /// Derives the round's decision from the accumulated weights.
    ///
    /// Success is declared iff the successful weight has reached the
    /// quorum; failure is declared iff even winning all pending weight
    /// could not reach it; otherwise the round is still pending.
    pub fn decision(&self) -> (d: QuorumDecision)
        requires
            self.wf(),
        ensures
            (d == QuorumDecision::Success) <==> self.success_weight >= self.quorum,
            (d == QuorumDecision::Failure) <==> (self.success_weight < self.quorum
                && self.success_weight + self.pending_weight < self.quorum),
            (d == QuorumDecision::Pending) <==> (self.success_weight < self.quorum
                && self.success_weight + self.pending_weight >= self.quorum),
    {
        if self.success_weight >= self.quorum as usize {
            QuorumDecision::Success
        } else if self.success_weight + self.pending_weight < self.quorum as usize {
            QuorumDecision::Failure
        } else {
            QuorumDecision::Pending
        }
    }
}

proof fn lemma_weight_take_step(s: Seq<(usize, bool)>, i: int)
    requires
        0 <= i < s.len(),
    ensures
        spec_total_weight(s.take(i + 1)) == spec_total_weight(s.take(i)) + s[i].0 as int,
        spec_success_weight(s.take(i + 1)) == spec_success_weight(s.take(i)) + if s[i].1 {
            s[i].0 as int
        } else {
            0
        },
{
    assert(s.take(i + 1).drop_last() =~= s.take(i));
    assert(s.take(i + 1).last() == s[i]);
}

proof fn lemma_weight_skip_step(s: Seq<(usize, bool)>, i: int)
    requires
        0 <= i < s.len(),
    ensures
        spec_total_weight(s.skip(i)) == s[i].0 as int + spec_total_weight(s.skip(i + 1)),
{
    lemma_total_weight_head(s.skip(i));
    assert(s.skip(i).drop_first() =~= s.skip(i + 1));
    assert(s.skip(i).first() == s[i]);
}

proof fn lemma_total_weight_head(s: Seq<(usize, bool)>)
    requires
        s.len() > 0,
    ensures
        spec_total_weight(s) == s.first().0 as int + spec_total_weight(s.drop_first()),
    decreases s.len(),
{
    if s.len() == 1 {
        assert(s.drop_first() =~= Seq::<(usize, bool)>::empty());
        assert(s.drop_last() =~= Seq::<(usize, bool)>::empty());
        assert(s.first() == s.last());
    } else {
        lemma_total_weight_head(s.drop_last());
        assert(s.drop_last().drop_first() =~= s.drop_first().drop_last());
        assert(s.drop_last().first() == s.first());
        assert(s.drop_first().last() == s.last());
        assert(s.drop_first().len() > 0);
        assert(spec_total_weight(s.drop_first()) == spec_total_weight(s.drop_first().drop_last())
            + s.drop_first().last().0 as int);
    }
}

/// Every weight is non-negative, so any suffix contributes a non-negative
/// total.
proof fn lemma_total_weight_skip_nonneg(s: Seq<(usize, bool)>, i: int)
    requires
        0 <= i <= s.len(),
    ensures
        spec_total_weight(s.skip(i)) >= 0,
    decreases s.len() - i,
{
    if i < s.len() {
        lemma_weight_skip_step(s, i);
        lemma_total_weight_skip_nonneg(s, i + 1);
    } else {
        assert(s.skip(i) =~= Seq::<(usize, bool)>::empty());
    }
}

/// Removing one outcome removes exactly its contribution from the
/// successful weight.
proof fn lemma_success_weight_remove(s: Seq<(usize, bool)>, j: int)
    requires
        0 <= j < s.len(),
    ensures
        spec_success_weight(s) == spec_success_weight(s.remove(j)) + if s[j].1 {
            s[j].0 as int
        } else {
            0
        },
    decreases s.len(),
{
    if j == s.len() - 1 {
        assert(s.remove(j) =~= s.drop_last());
    } else {
        assert(s.remove(j).last() == s.last());
        assert(s.remove(j).drop_last() =~= s.drop_last().remove(j));
        lemma_success_weight_remove(s.drop_last(), j);
    }
}

/// The successful weight of a batch of outcomes does not depend on arrival
/// order: two sequences holding the same outcomes the same number of times
/// accumulate the same successful weight, hence drive the aggregator to the
/// same decision.
pub proof fn lemma_success_weight_permutation(s1: Seq<(usize, bool)>, s2: Seq<(usize, bool)>)
    requires
        s1.to_multiset() == s2.to_multiset(),
    ensures
        spec_success_weight(s1) == spec_success_weight(s2),
    decreases s1.len(),
{
    broadcast use vstd::seq_lib::group_to_multiset_ensures;

    if s1.len() == 0 {
        assert(s1.to_multiset().len() == s1.len());
        assert(s2.to_multiset().len() == s2.len());
        assert(s2.len() == 0);
        assert(s2 =~= Seq::<(usize, bool)>::empty());
    } else {
        let x = s1.last();
        assert(s1.contains(x));
        assert(s1.to_multiset().count(x) > 0);
        assert(s2.to_multiset().count(x) > 0);
        assert(s2.contains(x));
        let j = choose|j: int| 0 <= j < s2.len() && s2[j] == x;
        assert(s1.drop_last() =~= s1.remove(s1.len() - 1));
        lemma_success_weight_remove(s1, s1.len() - 1);
        lemma_success_weight_remove(s2, j);
        assert(s1.remove(s1.len() - 1).to_multiset() =~= s1.to_multiset().remove(x));
        assert(s2.remove(j).to_multiset() =~= s2.to_multiset().remove(x));
        lemma_success_weight_permutation(s1.drop_last(), s2.remove(j));
    }
}

} // verus!
