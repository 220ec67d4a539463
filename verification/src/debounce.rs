//! Debounce filter over drained edge events.
//!
//! A [`DebounceGate`] decides, given a monotonic timestamp, whether an edge
//! event is a new physical action or mechanical switch bounce. An event is
//! accepted exactly when no event was accepted yet, or at least
//! `debounce_window` time units passed since the last accepted one. Rapid
//! re-triggers inside the window are ignored and do not extend the window.
//!
//! Timestamps and the window share one caller-chosen unit (the examples use
//! milliseconds); only their differences matter.

use vstd::prelude::*;

verus! {

/// Debounce state: the timestamp of the last accepted event, if any, and
/// the fixed width of the rejection window.
pub struct DebounceGate {
    last_accepted: Option<u64>,
    debounce_window: u64,
}

impl DebounceGate {
    /// The width of the rejection window, fixed at construction.
    pub closed spec fn window(self) -> u64 {
        self.debounce_window
    }

    /// The timestamp of the last accepted event; `None` when idle (nothing
    /// accepted since construction or the last reset).
    pub closed spec fn last(self) -> Option<u64> {
        self.last_accepted
    }

    /// The timestamp `now` is not older than the last accepted one. The
    /// platform's monotonic clock guarantees this for every caller.
    pub open spec fn admits(self, now: u64) -> bool {
        self.last() is Some ==> self.last()->Some_0 <= now
    }

    /// The acceptance rule: accepted iff idle, or the window has fully
    /// elapsed since the last accepted event.
    pub open spec fn accepts(self, now: u64) -> bool {
        self.last() is None || now - self.last()->Some_0 >= self.window()
    }

    /// A fresh, idle gate with the given rejection window.
    pub fn new(debounce_window: u64) -> (gate: DebounceGate)
        ensures
            gate.last() is None,
            gate.window() == debounce_window,
    {
        DebounceGate { last_accepted: None, debounce_window }
    }

    /// Answer whether the edge seen at time `now` counts as a fresh
    /// press. Accepting stores that timestamp for later comparisons.
    /// A bounce changes nothing, and the earlier timestamp stays.
    pub fn accept(&mut self, now: u64) -> (accepted: bool)
        requires
            old(self).admits(now),
        ensures
            accepted == old(self).accepts(now),
            final(self).window() == old(self).window(),
            final(self).last() == if accepted {
                Some(now)
            } else {
                old(self).last()
            },
    {
        let accepted = match self.last_accepted {
            None => true,
            Some(last) => now - last >= self.debounce_window,
        };
        if accepted {
            self.last_accepted = Some(now);
        }
        accepted
    }

    /// Forget the last accepted event. The next event is then accepted
    /// unconditionally (see [`lemma_reset_unconditionally_accepts`]).
    pub fn reset(&mut self)
        ensures
            final(self).last() is None,
            final(self).window() == old(self).window(),
    {
        self.last_accepted = None;
    }
}

/// Reset semantics: an idle gate — in particular, one that `reset` just
/// ran on — accepts the immediately following event, whatever happened
/// before and whatever the timestamp.
pub proof fn lemma_reset_unconditionally_accepts(gate: DebounceGate, now: u64)
    requires
        gate.last() is None,
    ensures
        gate.admits(now),
        gate.accepts(now),
{
}

} // verus!
