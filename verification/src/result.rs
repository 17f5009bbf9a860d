//! The uniform envelope for per-node outcomes.
//!
//! Every operation against a storage node completes as a `NodeResult`
//! carrying the epoch it ran in, the shard weight the outcome speaks for,
//! the index of the node in the committee, and the outcome itself.  This is
//! the sole output surface consumed by the quorum aggregation above.

use vstd::prelude::*;

verus! {

/// A committee validity period.
pub type Epoch = u64;

/// The index of a node in the committee's member list.
pub type NodeIndex = usize;

/// The result of an interaction with a storage node: the epoch, the weight
/// of the interaction (the number of shards the outcome attests to), the
/// node that issued it, and the outcome of the operation.
pub struct NodeResult<T, E>(pub Epoch, pub usize, pub NodeIndex, pub Result<T, E>);

impl<T, E> NodeResult<T, E> {
    /// The number of shards this outcome speaks for.
    pub fn weight(&self) -> (w: usize)
        ensures
            w == self.1,
    {
        self.1
    }

    /// The outcome of the operation, by reference.
    pub fn inner_result(&self) -> (r: &Result<T, E>)
        ensures
            r == self.3,
    {
        &self.3
    }

    /// The outcome of the operation, by value.
    pub fn take_inner_result(self) -> (r: Result<T, E>)
        ensures
            r == self.3,
    {
        self.3
    }
}

} // verus!
