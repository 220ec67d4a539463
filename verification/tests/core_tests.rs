//! Tests of the edge latch, the debounce gate, and the consumer protocol.

use edgecore::consumer::{next_blink_delay, poll_step, press_edge, OutputState, PollOutcome};
use edgecore::debounce::DebounceGate;
use edgecore::latch::EdgeLatch;

#[test]
fn signal_then_take_is_observed() {
    let mut latch = EdgeLatch::new();
    assert!(!latch.take());
    latch.signal();
    assert!(latch.take());
    assert!(!latch.take());
}

#[test]
fn coalescing_two_signals_one_event() {
    let mut latch = EdgeLatch::new();
    latch.signal();
    latch.signal();
    latch.signal();
    assert!(latch.take());
    assert!(!latch.take());
}

#[test]
fn idempotent_drain() {
    let mut latch = EdgeLatch::new();
    latch.signal();
    assert!(latch.take());
    assert!(!latch.take());
}

#[test]
fn debounce_rejection_inside_window() {
    let mut gate = DebounceGate::new(500);
    assert!(gate.accept(1000));
    assert!(!gate.accept(1100));
}

#[test]
fn debounce_acceptance_after_window() {
    let mut gate = DebounceGate::new(500);
    assert!(gate.accept(1000));
    assert!(gate.accept(1600));
    // The second acceptance moved the reference point to 1600: an event
    // 499 units later is still bounce, one 500 units later is not.
    assert!(!gate.accept(2099));
    assert!(gate.accept(2100));
}

#[test]
fn reset_semantics() {
    let mut gate = DebounceGate::new(500);
    assert!(gate.accept(1000));
    assert!(!gate.accept(1001));
    gate.reset();
    assert!(gate.accept(1001));
}

#[test]
fn rejected_bounce_does_not_extend_window() {
    let mut gate = DebounceGate::new(500);
    assert!(gate.accept(1000));
    assert!(!gate.accept(1499));
    // Rejection left the reference point at 1000, so 1500 is accepted.
    assert!(gate.accept(1500));
}

#[test]
fn end_to_end_scenario() {
    let mut latch = EdgeLatch::new();
    let mut gate = DebounceGate::new(500);
    let mut out = OutputState::new();

    let mut outcomes = Vec::new();
    for t in [0u64, 10, 20, 600] {
        latch.signal();
        outcomes.push(poll_step(&mut latch, &mut gate, &mut out, t));
    }
    assert_eq!(
        outcomes,
        vec![
            PollOutcome::Accepted,
            PollOutcome::Rejected,
            PollOutcome::Rejected,
            PollOutcome::Accepted,
        ]
    );
    assert_eq!(out.press_count(), 2);
    // Toggled exactly twice: back at the initial level.
    assert!(!out.led_on());

    // A poll with nothing pending changes nothing.
    assert_eq!(
        poll_step(&mut latch, &mut gate, &mut out, 700),
        PollOutcome::NoEvent
    );
    assert_eq!(out.press_count(), 2);
}

#[test]
fn output_state_reset() {
    let mut latch = EdgeLatch::new();
    let mut gate = DebounceGate::new(50);
    let mut out = OutputState::new();
    latch.signal();
    assert_eq!(poll_step(&mut latch, &mut gate, &mut out, 5), PollOutcome::Accepted);
    assert!(out.led_on());
    assert_eq!(out.press_count(), 1);
    out.reset();
    assert!(!out.led_on());
    assert_eq!(out.press_count(), 0);
}

#[test]
fn press_edge_fires_once_per_press() {
    let mut seen = false;
    let reads = [false, true, true, true, false, true];
    let fires: Vec<bool> = reads.iter().map(|&r| press_edge(r, &mut seen)).collect();
    assert_eq!(fires, vec![false, true, false, false, false, true]);
}

#[test]
fn blink_delay_steps_down_and_springs_back() {
    assert_eq!(next_blink_delay(500), 450);
    assert_eq!(next_blink_delay(100), 50);
    assert_eq!(next_blink_delay(50), 0);
    assert_eq!(next_blink_delay(49), 500);
    assert_eq!(next_blink_delay(0), 500);
}
