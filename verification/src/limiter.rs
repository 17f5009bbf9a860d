//! Nested admission gates bounding in-flight requests.
//!
//! Every peer operation must pass two counting gates: a per-peer gate that
//! bounds concurrent requests against one storage node, and a global gate
//! shared by all peers of one protocol round.  The per-peer permit is always
//! acquired first, so a request waiting on a saturated peer never occupies a
//! global slot; permits are released in reverse order on every exit path.

use vstd::prelude::*;

verus! {

/// A counting admission gate: at most `capacity` permits may be held at once.
pub struct PermitGate {
    /// Number of permits configured for this gate.
    pub capacity: usize,
    /// Number of permits currently free.
    pub available: usize,
}

impl PermitGate {
    /// A gate never hands out more permits than its capacity.
    pub open spec fn wf(self) -> bool {
        self.available <= self.capacity
    }

    /// Creates a gate with all `capacity` permits free.
    pub fn new(capacity: usize) -> (gate: PermitGate)
        ensures
            gate.wf(),
            gate.capacity == capacity,
            gate.available == capacity,
    {
        PermitGate { capacity, available: capacity }
    }

    /// Number of permits currently free.
    pub fn available(&self) -> (n: usize)
        ensures
            n == self.available,
    {
        self.available
    }

    /// Number of permits configured for this gate.
    pub fn capacity(&self) -> (n: usize)
        ensures
            n == self.capacity,
    {
        self.capacity
    }

    /// Takes one permit if any is free.
    pub fn try_acquire(&mut self) -> (granted: bool)
        requires
            old(self).wf(),
        ensures
            final(self).wf(),
            final(self).capacity == old(self).capacity,
            granted == (old(self).available > 0),
            granted ==> final(self).available == old(self).available - 1,
            !granted ==> final(self).available == old(self).available,
    {
        if self.available > 0 {
            self.available = self.available - 1;
            true
        } else {
            false
        }
    }

    /// Returns one held permit.  The caller must actually hold a permit,
    /// so the count can never exceed the configured capacity.
    pub fn release(&mut self)
        requires
            old(self).wf(),
            old(self).available < old(self).capacity,
        ensures
            final(self).wf(),
            final(self).capacity == old(self).capacity,
            final(self).available == old(self).available + 1,
    {
        self.available = self.available + 1;
    }
}

/// Acquires the per-peer permit first and only then the global one; if the
/// global gate is saturated the per-peer permit is returned immediately, so
/// a request blocked on one gate never sits on a permit of the other.
pub fn try_acquire_nested(node_gate: &mut PermitGate, global_gate: &mut PermitGate) -> (granted:
    bool)
    requires
        old(node_gate).wf(),
        old(global_gate).wf(),
    ensures
        final(node_gate).wf(),
        final(global_gate).wf(),
        final(node_gate).capacity == old(node_gate).capacity,
        final(global_gate).capacity == old(global_gate).capacity,
        granted == (old(node_gate).available > 0 && old(global_gate).available > 0),
        granted ==> final(node_gate).available == old(node_gate).available - 1
            && final(global_gate).available == old(global_gate).available - 1,
        !granted ==> final(node_gate).available == old(node_gate).available
            && final(global_gate).available == old(global_gate).available,
{
    if node_gate.try_acquire() {
        if global_gate.try_acquire() {
            true
        } else {
            node_gate.release();
            false
        }
    } else {
        false
    }
}

/// Releases a nested pair of permits in reverse acquisition order:
/// global first, then per-peer.
pub fn release_nested(node_gate: &mut PermitGate, global_gate: &mut PermitGate)
    requires
        old(node_gate).wf(),
        old(global_gate).wf(),
        old(node_gate).available < old(node_gate).capacity,
        old(global_gate).available < old(global_gate).capacity,
    ensures
        final(node_gate).wf(),
        final(global_gate).wf(),
        final(node_gate).capacity == old(node_gate).capacity,
        final(global_gate).capacity == old(global_gate).capacity,
        final(node_gate).available == old(node_gate).available + 1,
        final(global_gate).available == old(global_gate).available + 1,
{
    global_gate.release();
    node_gate.release();
}

/// One step of a gate's history: a grant attempt or a permit return.
pub enum GateOp {
    /// A request asks for a permit; granted only if one is free.
    Acquire,
    /// A request returns a permit; counted only while one is held.
    Release,
}

/// Applies one operation to a gate.  An acquire finding no free permit
/// has no effect (that request keeps waiting), and neither has a release
/// when no permit is held.
pub open spec fn spec_gate_step(gate: PermitGate, op: GateOp) -> PermitGate {
    match op {
        GateOp::Acquire => if gate.available > 0 {
            PermitGate { available: (gate.available - 1) as usize, ..gate }
        } else {
            gate
        },
        GateOp::Release => if gate.available < gate.capacity {
            PermitGate { available: (gate.available + 1) as usize, ..gate }
        } else {
            gate
        },
    }
}

/// Folds a whole history of operations over a gate.
pub open spec fn spec_gate_run(gate: PermitGate, ops: Seq<GateOp>) -> PermitGate
    decreases ops.len(),
{
    if ops.len() == 0 {
        gate
    } else {
        spec_gate_step(spec_gate_run(gate, ops.drop_last()), ops.last())
    }
}

/// Under any interleaving of acquires and releases, a well-formed gate stays
/// well-formed: the free-permit count never exceeds the configured capacity
/// (and, being a count, never goes negative), and the capacity never changes.
pub proof fn lemma_gate_ops_bounded(gate: PermitGate, ops: Seq<GateOp>)
    requires
        gate.wf(),
    ensures
        spec_gate_run(gate, ops).wf(),
        spec_gate_run(gate, ops).capacity == gate.capacity,
    decreases ops.len(),
{
    if ops.len() > 0 {
        lemma_gate_ops_bounded(gate, ops.drop_last());
    }
}

} // verus!
