//! Consumer-side plumbing for the signalling core.
//!
//! [`poll_step`] bundles what a firmware loop does each time around:
//! check the latch, time-filter whatever it held, and bring the LED
//! level and the press counter up to date. The caller wraps the whole
//! call in the very critical section the interrupt handler uses, so no
//! edge slips between checking and clearing. Whether the caller
//! busy-polls or runs as a task under a cooperative scheduler is its
//! own choice; the step works the same either way.

use vstd::prelude::*;

use crate::debounce::DebounceGate;
use crate::latch::EdgeLatch;

verus! {

/// The shared output state a consumer mutates on accepted events: an
/// output level (say, an LED) and a press counter.
pub struct OutputState {
    led_on: bool,
    count: u32,
}

impl OutputState {
    /// Whether the output is driven high.
    pub closed spec fn led(self) -> bool {
        self.led_on
    }

    /// How many presses were accepted so far.
    pub closed spec fn presses(self) -> u32 {
        self.count
    }

    /// Output low, nothing counted.
    pub fn new() -> (out: OutputState)
        ensures
            !out.led(),
            out.presses() == 0,
    {
        OutputState { led_on: false, count: 0 }
    }

    /// Read the output level.
    pub fn led_on(&self) -> (on: bool)
        ensures
            on == self.led(),
    {
        self.led_on
    }

    /// Read the press counter.
    pub fn press_count(&self) -> (count: u32)
        ensures
            count == self.presses(),
    {
        self.count
    }

    /// Clear the counter and drive the output low, as a domain reset does.
    pub fn reset(&mut self)
        ensures
            !final(self).led(),
            final(self).presses() == 0,
    {
        self.led_on = false;
        self.count = 0;
    }
}

/// What one consumer iteration did.
#[derive(PartialEq, Eq, Structural, Clone, Copy, Debug)]
pub enum PollOutcome {
    /// No event was pending.
    NoEvent,
    /// An event was pending but fell inside the debounce window.
    Rejected,
    /// An event was pending and accepted; the output state was mutated.
    Accepted,
}

/// One iteration of the consumer protocol. Must run inside the same
/// exclusion domain as the producer's `signal`; a signal arriving after
/// the drain is kept for the next poll. Exactly one output mutation
/// happens per accepted event, none otherwise.
pub fn poll_step(
    latch: &mut EdgeLatch,
    gate: &mut DebounceGate,
    out: &mut OutputState,
    now: u64,
) -> (outcome: PollOutcome)
    requires
        old(gate).admits(now),
        old(latch).is_pending() && old(gate).accepts(now) ==> old(out).presses() < u32::MAX,
    ensures
        !final(latch).is_pending(),
        !old(latch).is_pending() ==> {
            &&& outcome == PollOutcome::NoEvent
            &&& *final(gate) == *old(gate)
            &&& *final(out) == *old(out)
        },
        old(latch).is_pending() && !old(gate).accepts(now) ==> {
            &&& outcome == PollOutcome::Rejected
            &&& final(gate).last() == old(gate).last()
            &&& *final(out) == *old(out)
        },
        old(latch).is_pending() && old(gate).accepts(now) ==> {
            &&& outcome == PollOutcome::Accepted
            &&& final(gate).last() == Some(now)
            &&& final(out).led() == !old(out).led()
            &&& final(out).presses() == old(out).presses() + 1
        },
        final(gate).window() == old(gate).window(),
{
    if !latch.take() {
        return PollOutcome::NoEvent;
    }
    if gate.accept(now) {
        out.led_on = !out.led_on;
        out.count = out.count + 1;
        PollOutcome::Accepted
    } else {
        PollOutcome::Rejected
    }
}

/// Software edge detection for a polled button: fires exactly when the
/// button reads pressed after last being seen released, and remembers
/// what it saw for the next poll. The timer example keeps one such flag
/// per button so holding a button acts only once.
pub fn press_edge(pressed_now: bool, seen_pressed: &mut bool) -> (fire: bool)
    ensures
        fire == (pressed_now && !*old(seen_pressed)),
        *final(seen_pressed) == pressed_now,
{
    if pressed_now {
        let fire = !*seen_pressed;
        *seen_pressed = true;
        fire
    } else {
        *seen_pressed = false;
        false
    }
}

/// The next LED blink delay after a button press: fifty units faster each
/// press, springing back to the initial five hundred once it would drop
/// under fifty.
pub fn next_blink_delay(delay: u32) -> (next: u32)
    ensures
        delay < 50 ==> next == 500,
        delay >= 50 ==> next == delay - 50,
{
    if delay < 50 {
        500
    } else {
        delay - 50
    }
}

} // verus!
