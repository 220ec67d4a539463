//! Single-slot event buffer between an interrupt producer and a consumer.
//!
//! The producer (an interrupt handler) calls [`EdgeLatch::signal`]; the
//! consumer polls [`EdgeLatch::take`]. At most one event is buffered: a
//! second `signal` before the first is drained coalesces with it instead of
//! queueing. The caller must run both operations inside one exclusion
//! domain (a critical section); this type only carries the flag itself.

use vstd::prelude::*;

verus! {

/// One operation on an [`EdgeLatch`], used to state the laws that hold of
/// arbitrary interleavings of the two operations.
pub enum LatchOp {
    /// The producer recorded an edge.
    Signal,
    /// The consumer drained the latch.
    Take,
}

/// The pending flag after `op` runs on a latch whose flag is `pending`.
pub open spec fn latch_step(pending: bool, op: LatchOp) -> bool {
    match op {
        LatchOp::Signal => true,
        LatchOp::Take => false,
    }
}

/// The pending flag after the operations `ops` run, in order, on a latch
/// whose flag starts as `pending`.
pub open spec fn latch_run(pending: bool, ops: Seq<LatchOp>) -> bool
    decreases ops.len(),
{
    if ops.len() == 0 {
        pending
    } else {
        latch_step(latch_run(pending, ops.drop_last()), ops.last())
    }
}

/// A single-slot edge-event buffer: a pending flag set by the producer and
/// test-and-cleared by the consumer.
pub struct EdgeLatch {
    pending: bool,
}

impl EdgeLatch {
    /// Whether an event has been signalled and not yet drained.
    pub closed spec fn is_pending(self) -> bool {
        self.pending
    }

    /// A fresh latch with no event buffered.
    pub fn new() -> (latch: EdgeLatch)
        ensures
            !latch.is_pending(),
    {
        EdgeLatch { pending: false }
    }

    /// Producer side: record that an edge occurred. A signal arriving while
    /// one is already pending coalesces with it.
    pub fn signal(&mut self)
        ensures
            final(self).is_pending() == latch_step(old(self).is_pending(), LatchOp::Signal),
            final(self).is_pending(),
    {
        self.pending = true;
    }

    /// Consumer side: atomically read the pending flag and clear it.
    /// Returns whether an event had been signalled since the last `take`.
    pub fn take(&mut self) -> (was_pending: bool)
        ensures
            was_pending == old(self).is_pending(),
            final(self).is_pending() == latch_step(old(self).is_pending(), LatchOp::Take),
            !final(self).is_pending(),
    {
        let was_pending = self.pending;
        self.pending = false;
        was_pending
    }
}

/// No missed event: whatever the starting flag, if some `signal` ran and no
/// `take` ran after it, the flag is set, so the next `take` returns true.
pub proof fn lemma_no_missed_event(pending: bool, ops: Seq<LatchOp>, i: int)
    requires
        0 <= i < ops.len(),
        ops[i] is Signal,
        forall|j: int| i < j < ops.len() ==> !(#[trigger] ops[j] is Take),
    ensures
        latch_run(pending, ops),
    decreases ops.len(),
{
    if i == ops.len() - 1 {
    } else {
        lemma_no_missed_event(pending, ops.drop_last(), i);
    }
}

/// Coalescing: any number of consecutive signals leaves exactly one pending
/// event, so one `take` afterward returns true and clears the latch, and a
/// second `take` straight after returns false.
pub proof fn lemma_coalescing(pending: bool, ops: Seq<LatchOp>, sigs: Seq<LatchOp>)
    requires
        sigs.len() >= 1,
        forall|j: int| 0 <= j < sigs.len() ==> (#[trigger] sigs[j]) is Signal,
    ensures
        latch_run(pending, ops + sigs),
        !latch_run(pending, (ops + sigs).push(LatchOp::Take)),
{
    lemma_no_missed_event(pending, ops + sigs, ops.len() as int);
    assert(((ops + sigs).push(LatchOp::Take)).drop_last() =~= ops + sigs);
}

/// Idempotent drain: a `take` always leaves the latch empty, so a second
/// `take` with no `signal` in between returns false.
pub proof fn lemma_idempotent_drain(pending: bool, ops: Seq<LatchOp>)
    ensures
        !latch_run(pending, ops.push(LatchOp::Take)),
{
    assert(ops.push(LatchOp::Take).drop_last() =~= ops);
}

} // verus!
