//! Byzantine-fault-tolerant threshold arithmetic over the shard count.
//!
//! For a committee whose shard assignment spans `n` shards, up to
//! `f = (n - 1) / 3` shards may be held by faulty nodes.  A quorum of
//! `2f + 1` shard weights suffices to decide an operation, and at least
//! `n - f` shards are held by correct nodes.

use vstd::prelude::*;

verus! {

/// Maximum shard weight that may be faulty: `f = (n - 1) / 3`.
pub open spec fn spec_max_n_faulty(n_shards: nat) -> nat
    recommends
        n_shards >= 1,
{
    ((n_shards - 1) / 3) as nat
}

/// Quorum threshold: `2f + 1`.
pub open spec fn spec_quorum(n_shards: nat) -> nat
    recommends
        n_shards >= 1,
{
    2 * spec_max_n_faulty(n_shards) + 1
}

/// Minimum shard weight held by correct nodes: `n - f`.
pub open spec fn spec_min_n_correct(n_shards: nat) -> nat
    recommends
        n_shards >= 1,
{
    (n_shards - spec_max_n_faulty(n_shards)) as nat
}

/// Returns the maximum number of faulty shards tolerated for `n_shards`.
pub fn max_n_faulty(n_shards: u16) -> (f: u16)
    requires
        n_shards >= 1,
    ensures
        f == spec_max_n_faulty(n_shards as nat),
{
    (n_shards - 1) / 3
}

/// Returns the quorum threshold `2f + 1` for `n_shards`.
pub fn quorum_threshold(n_shards: u16) -> (q: u16)
    requires
        n_shards >= 1,
    ensures
        q == spec_quorum(n_shards as nat),
{
    2 * max_n_faulty(n_shards) + 1
}

/// Returns the minimum number of correct shards `n - f` for `n_shards`.
pub fn min_n_correct(n_shards: u16) -> (c: u16)
    requires
        n_shards >= 1,
    ensures
        c == spec_min_n_correct(n_shards as nat),
{
    n_shards - max_n_faulty(n_shards)
}

/// For every shard count `n >= 1`, the derived thresholds are consistent:
/// the quorum `2f + 1` never exceeds `n`, and the minimum correct weight
/// `n - f` is at least `quorum - f` (so correct nodes alone can reach a
/// quorum even when all `f` faulty nodes stay silent).
pub proof fn lemma_threshold_consistency(n_shards: nat)
    requires
        n_shards >= 1,
    ensures
        spec_quorum(n_shards) <= n_shards,
        spec_min_n_correct(n_shards) >= spec_quorum(n_shards) - spec_max_n_faulty(n_shards),
        spec_min_n_correct(n_shards) >= spec_quorum(n_shards),
{
    let f = spec_max_n_faulty(n_shards);
    assert(3 * f <= n_shards - 1);
}

} // verus!
