//! The committee of storage nodes and its shard assignment.
//!
//! A committee is an ordered list of storage nodes, each owning a set of
//! shard indices.  Its defining invariant is that the owned-shard sets
//! partition the full shard index range exactly: every shard below
//! `n_shards` is owned by exactly one member, with no gaps and no overlaps.
//! The committee is a read-only snapshot for the duration of a protocol
//! round and is replaced wholesale on an epoch change.

use vstd::prelude::*;
use crate::result::Epoch;

verus! {

/// A storage node of the committee: reachable address, public key, and the
/// set of shard indices it owns.
pub struct StorageNode {
    /// Network address of the node, as host and port text.
    pub network_address: String,
    /// Public key the node signs confirmations with.
    pub public_key: Vec<u8>,
    /// Shard indices owned by this node.
    pub shard_ids: Vec<u16>,
}

/// An ordered committee of storage nodes for one epoch.
pub struct Committee {
    /// The epoch this committee is valid for.
    pub epoch: Epoch,
    /// Total number of shards assigned across the members.
    pub n_shards: u16,
    /// The member nodes, in committee order.
    pub members: Vec<StorageNode>,
}

/// All shard indices claimed by the members, in member order.
pub open spec fn spec_all_shards(members: Seq<StorageNode>) -> Seq<u16>
    decreases members.len(),
{
    if members.len() == 0 {
        Seq::empty()
    } else {
        spec_all_shards(members.drop_last()) + members.last().shard_ids@
    }
}

/// Number of occurrences of `x` in `s`.
pub open spec fn spec_count(s: Seq<u16>, x: u16) -> int
    decreases s.len(),
{
    if s.len() == 0 {
        0
    } else {
        spec_count(s.drop_last(), x) + if s.last() == x {
            1int
        } else {
            0
        }
    }
}

/// The owned-shard sets of the members partition `0 .. n_shards` exactly:
/// every claimed shard is in range, and every shard in range is claimed
/// exactly once.
pub open spec fn spec_exact_cover(members: Seq<StorageNode>, n_shards: u16) -> bool {
    let all = spec_all_shards(members);
    &&& forall|i: int| 0 <= i < all.len() ==> all[i] < n_shards
    &&& forall|s: u16| s < n_shards ==> spec_count(all, s) == 1
}

impl Committee {
    /// A valid committee assigns a positive shard space exactly once.
    pub open spec fn is_valid(self) -> bool {
        &&& self.n_shards >= 1
        &&& spec_exact_cover(self.members@, self.n_shards)
    }
}

proof fn lemma_count_nonneg(s: Seq<u16>, x: u16)
    ensures
        spec_count(s, x) >= 0,
    decreases s.len(),
{
    if s.len() > 0 {
        lemma_count_nonneg(s.drop_last(), x);
    }
}

proof fn lemma_count_take_step(s: Seq<u16>, k: int, x: u16)
    requires
        0 <= k < s.len(),
    ensures
        spec_count(s.take(k + 1), x) == spec_count(s.take(k), x) + if s[k] == x {
            1int
        } else {
            0
        },
{
    assert(s.take(k + 1).drop_last() =~= s.take(k));
    assert(s.take(k + 1).last() == s[k]);
}

proof fn lemma_count_take_le(s: Seq<u16>, k: int, x: u16)
    requires
        0 <= k <= s.len(),
    ensures
        spec_count(s.take(k), x) <= spec_count(s, x),
    decreases s.len() - k,
{
    if k == s.len() {
        assert(s.take(k) =~= s);
    } else {
        lemma_count_take_step(s, k, x);
        lemma_count_take_le(s, k + 1, x);
    }
}

/// Collects every shard index claimed by the members into one list, in
/// member order.
fn collect_all_shards(members: &Vec<StorageNode>) -> (all: Vec<u16>)
    ensures
        all@ == spec_all_shards(members@),
{
    let mut all: Vec<u16> = Vec::new();
    let mut i: usize = 0;
    proof {
        assert(members@.take(0) =~= Seq::<StorageNode>::empty());
    }
    while i < members.len()
        invariant
            i <= members.len(),
            all@ == spec_all_shards(members@.take(i as int)),
        decreases members.len() - i,
    {
        let node = &members[i];
        let mut j: usize = 0;
        while j < node.shard_ids.len()
            invariant
                i < members.len(),
                j <= node.shard_ids.len(),
                node == members@[i as int],
                all@ == spec_all_shards(members@.take(i as int)) + node.shard_ids@.take(j as int),
            decreases node.shard_ids.len() - j,
        {
            all.push(node.shard_ids[j]);
            proof {
                assert(node.shard_ids@.take(j + 1) =~= node.shard_ids@.take(j as int).push(
                    node.shard_ids@[j as int],
                ));
            }
            j = j + 1;
        }
        proof {
            assert(node.shard_ids@.take(node.shard_ids@.len() as int) =~= node.shard_ids@);
            assert(members@.take(i + 1).drop_last() =~= members@.take(i as int));
            assert(members@.take(i + 1).last() == members@[i as int]);
        }
        i = i + 1;
    }
    proof {
        assert(members@.take(members@.len() as int) =~= members@);
    }
    all
}

/// Checks the committee invariant: returns `true` iff the members' owned
/// shards cover `0 .. n_shards` exactly once, with no shard out of range.
/// Consumers of weighted results assume this of every committee they
/// aggregate over; this check establishes it once per epoch.
pub fn verify_committee(committee: &Committee) -> (valid: bool)
    ensures
        valid == committee.is_valid(),
{
    if committee.n_shards == 0 {
        return false;
    }
    let n = committee.n_shards;
    let all = collect_all_shards(&committee.members);
    let ghost alls = all@;
    let mut seen: Vec<bool> = Vec::new();
    let mut s: usize = 0;
    while s < n as usize
        invariant
            s <= n as usize,
            seen@.len() == s,
            forall|t: int| 0 <= t < s ==> !seen@[t],
        decreases n as usize - s,
    {
        seen.push(false);
        s = s + 1;
    }
    let mut k: usize = 0;
    proof {
        assert(alls.take(0) =~= Seq::<u16>::empty());
    }
    while k < all.len()
        invariant
            k <= all.len(),
            all@ == alls,
            alls == spec_all_shards(committee.members@),
            seen@.len() == n,
            n == committee.n_shards,
            forall|idx: int| 0 <= idx < k ==> alls[idx] < n,
            forall|t: u16| t < n ==> spec_count(alls.take(k as int), t) <= 1,
            forall|t: u16|
                t < n ==> (seen@[t as int] <==> spec_count(alls.take(k as int), t) == 1),
        decreases all.len() - k,
    {
        let v = all[k];
        proof {
            lemma_count_take_step(alls, k as int, v);
            assert forall|t: u16| t < n && t != v implies spec_count(alls.take(k as int + 1), t)
                == spec_count(alls.take(k as int), t) by {
                lemma_count_take_step(alls, k as int, t);
            };
        }
        if v >= n {
            return false;
        }
        if seen[v as usize] {
            proof {
                lemma_count_take_le(alls, k as int + 1, v);
                assert(spec_count(alls, v) >= 2);
            }
            return false;
        }
        seen.set(v as usize, true);
        proof {
            lemma_count_nonneg(alls.take(k as int), v);
            assert(spec_count(alls.take(k as int), v) == 0);
            assert forall|t: u16| t < n implies #[trigger] spec_count(alls.take(k as int + 1), t)
                <= 1 by {
                if t != v {
                    lemma_count_take_step(alls, k as int, t);
                    assert(spec_count(alls.take(k as int), t) <= 1);
                }
            };
        }
        k = k + 1;
    }
    proof {
        assert(alls.take(alls.len() as int) =~= alls);
    }
    let mut t: usize = 0;
    while t < n as usize
        invariant
            t <= n as usize,
            seen@.len() == n,
            n == committee.n_shards,
            n >= 1,
            alls == spec_all_shards(committee.members@),
            forall|idx: int| 0 <= idx < alls.len() ==> alls[idx] < n,
            forall|u: u16| u < n ==> (seen@[u as int] <==> spec_count(alls, u) == 1),
            forall|u: u16| u < t ==> spec_count(alls, u) == 1,
        decreases n as usize - t,
    {
        if !seen[t] {
            proof {
                let u = t as u16;
                assert(seen@[u as int] <==> spec_count(alls, u) == 1);
            }
            return false;
        }
        t = t + 1;
    }
    true
}

} // verus!
