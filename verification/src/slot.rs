//! The pending-result slot and the wait-loop decision.
//!
//! A slot starts empty, is filled exactly once by the completion callback,
//! and is taken exactly once by the waiting caller. The waiting thread's
//! loop makes one decision per iteration: abandon the wait when the caller's
//! operation was cancelled, deliver the result when the slot is filled, and
//! otherwise keep driving the callback pump. Checking cancellation first is
//! what guarantees that a cancelled caller never receives the data, even if
//! the completion lands in the same iteration.

use vstd::prelude::*;

verus! {

/// A single-assignment hand-off box between the pump's completion callback
/// and the waiting caller.
pub struct PendingSlot<T> {
    value: Option<T>,
    taken: bool,
}

impl<T> PendingSlot<T> {
    /// Nothing was ever written to the slot.
    pub closed spec fn is_empty(&self) -> bool {
        self.value is None && !self.taken
    }

    /// A result is waiting to be taken.
    pub closed spec fn is_ready(&self) -> bool {
        self.value is Some
    }

    /// The result the slot holds, when one is ready.
    pub closed spec fn ready_value(&self) -> T
        recommends
            self.is_ready(),
    {
        self.value->Some_0
    }

    /// The result was handed out; the slot is spent.
    pub closed spec fn is_taken(&self) -> bool {
        self.taken
    }

    /// A fresh, empty slot.
    pub fn new() -> (s: PendingSlot<T>)
        ensures
            s.is_empty(),
            !s.is_ready(),
            !s.is_taken(),
    {
        PendingSlot { value: None, taken: false }
    }

    /// The completion callback's single assignment.
    pub fn fill(&mut self, value: T)
        requires
            old(self).is_empty(),
        ensures
            final(self).is_ready(),
            final(self).ready_value() == value,
            !final(self).is_taken(),
    {
        self.value = Some(value);
    }

    /// Whether a result is waiting.
    pub fn is_filled(&self) -> (b: bool)
        ensures
            b == self.is_ready(),
    {
        self.value.is_some()
    }

    /// The waiting caller's single read: empties the slot and hands the
    /// result out.
    pub fn take(&mut self) -> (r: T)
        requires
            old(self).is_ready(),
            !old(self).is_taken(),
        ensures
            r == old(self).ready_value(),
            final(self).is_taken(),
            !final(self).is_ready(),
    {
        self.taken = true;
        let mut value: Option<T> = None;
        core::mem::swap(&mut self.value, &mut value);
        value.unwrap()
    }
}

/// What one iteration of the wait loop decides to do.
pub enum WaitStep<T> {
    /// The caller's operation was cancelled: abandon the wait; the data, if
    /// any arrived, is never delivered to this caller.
    Cancelled,
    /// The completion landed: deliver the result.
    Ready(T),
    /// Nothing yet: drive the callback pump once, sleep briefly, try again.
    Pending,
}

/// The decision one wait-loop iteration makes, given whether a result is
/// ready and whether the caller cancelled. Cancellation is checked first.
pub open spec fn step_decision(ready: bool, cancelled: bool) -> WaitStep<()> {
    if cancelled {
        WaitStep::Cancelled
    } else if ready {
        WaitStep::Ready(())
    } else {
        WaitStep::Pending
    }
}

/// One iteration of the wait loop: checks the cancellation flag, then the
/// slot. Returns `Cancelled` without touching the slot when `cancelled`
/// holds — a late-arriving completion may still fill the slot afterwards,
/// but its value is never handed to this caller.
pub fn poll_step<T>(slot: &mut PendingSlot<T>, cancelled: bool) -> (r: WaitStep<T>)
    requires
        !old(slot).is_taken(),
    ensures
        cancelled ==> r is Cancelled && *final(slot) == *old(slot),
        !cancelled && old(slot).is_ready() ==> (r matches WaitStep::Ready(v) && v == old(
            slot,
        ).ready_value() && final(slot).is_taken()),
        !cancelled && !old(slot).is_ready() ==> r is Pending && *final(slot) == *old(slot),
        r is Cancelled <==> step_decision(old(slot).is_ready(), cancelled) is Cancelled,
        r is Ready <==> step_decision(old(slot).is_ready(), cancelled) is Ready,
        r is Pending <==> step_decision(old(slot).is_ready(), cancelled) is Pending,
{
    if cancelled {
        WaitStep::Cancelled
    } else if slot.is_filled() {
        WaitStep::Ready(slot.take())
    } else {
        WaitStep::Pending
    }
}

/// Cancellation wins over a simultaneous completion: whatever the slot
/// holds, a cancelled iteration decides `Cancelled` and never `Ready` — the
/// already-cancelled caller cannot receive the data.
pub proof fn lemma_cancellation_never_delivers(ready: bool)
    ensures
        step_decision(ready, true) is Cancelled,
        !(step_decision(ready, true) is Ready),
{
}

/// An uncancelled wait delivers as soon as the result is ready, and only
/// then: the waiting thread never spins past a completed request.
pub proof fn lemma_uncancelled_wait_delivers(ready: bool)
    ensures
        step_decision(ready, false) is Ready <==> ready,
        step_decision(ready, false) is Pending <==> !ready,
{
}

} // verus!
