//! Tests for `tamer::debounce`.
use tamer::debounce::{DebouncedInput, Debouncer, Edge, EdgeDetector};
use tamer::mock::MockInputPin;

// --- Debouncer ---

#[test]
fn immediate_change_ignored() {
    let mut d = Debouncer::new(false, 20);
    assert_eq!(d.update(true, 0), None);
    assert!(!d.stable_state());
}

#[test]
fn stable_transition_after_debounce() {
    let mut d = Debouncer::new(false, 20);
    assert_eq!(d.update(true, 0), None);
    assert_eq!(d.update(true, 10), None);
    assert_eq!(d.update(true, 25), Some(true));
    assert!(d.stable_state());
}

#[test]
fn bounce_within_window_resets_timer() {
    let mut d = Debouncer::new(false, 20);
    assert_eq!(d.update(true, 0), None);
    // Bounce back to stable — cancels pending.
    assert_eq!(d.update(false, 10), None);
    // New transition — timer restarts.
    assert_eq!(d.update(true, 15), None);
    // Not enough time from the restart.
    assert_eq!(d.update(true, 30), None);
    // Now enough time from restart at t=15.
    assert_eq!(d.update(true, 40), Some(true));
}

#[test]
fn multiple_transitions() {
    let mut d = Debouncer::new(false, 20);
    // false → true
    assert_eq!(d.update(true, 0), None);
    assert_eq!(d.update(true, 25), Some(true));
    // true → false
    assert_eq!(d.update(false, 50), None);
    assert_eq!(d.update(false, 75), Some(false));
    assert!(!d.stable_state());
}

#[test]
fn transition_at_exact_boundary() {
    let mut d = Debouncer::new(false, 20);
    assert_eq!(d.update(true, 0), None);
    // Exactly at debounce boundary (elapsed == debounce).
    assert_eq!(d.update(true, 20), Some(true));
    assert!(d.stable_state());
}

#[test]
fn same_value_as_stable_clears_pending() {
    let mut d = Debouncer::new(false, 20);
    assert_eq!(d.update(true, 0), None);
    // Return to stable — clears pending.
    assert_eq!(d.update(false, 5), None);
    // Even after the debounce period, no transition.
    assert_eq!(d.update(false, 30), None);
    assert!(!d.stable_state());
}

#[test]
fn zero_debounce_window_transitions_on_first_call() {
    let mut d = Debouncer::new(false, 0);
    // A zero window means no debouncing: the first changed sample confirms.
    assert_eq!(d.update(true, 0), Some(true));
    assert!(d.stable_state());
}

#[test]
fn near_u64_max_ticks_transition_confirmed() {
    let mut d = Debouncer::new(false, 100);
    assert_eq!(d.update(true, u64::MAX - 100), None);
    assert_eq!(d.update(true, u64::MAX - 50), None);
    assert_eq!(d.update(true, u64::MAX), Some(true));
    assert!(d.stable_state());
}

#[test]
fn transition_at_exactly_u64_max() {
    let mut d = Debouncer::new(false, 50);
    assert_eq!(d.update(true, u64::MAX - 50), None);
    assert_eq!(d.update(true, u64::MAX - 1), None);
    assert_eq!(d.update(true, u64::MAX), Some(true));
    assert!(d.stable_state());
}

#[test]
fn saturating_sub_with_earlier_timestamp_does_not_transition() {
    let mut d = Debouncer::new(false, 20);
    assert_eq!(d.update(true, 100), None);
    // Earlier timestamp: elapsed saturates to 0, 0 < 20 → no transition.
    assert_eq!(d.update(true, 50), None);
    assert!(!d.stable_state());
}

#[test]
fn maximum_debounce_window() {
    let mut d = Debouncer::new(false, u64::MAX);
    assert_eq!(d.update(true, 0), None);
    assert_eq!(d.update(true, u64::MAX - 1), None);
    assert_eq!(d.update(true, u64::MAX), Some(true));
    assert!(d.stable_state());
}

// --- EdgeDetector ---

#[test]
fn rising_edge() {
    let mut e = EdgeDetector::new(false, 20);
    assert_eq!(e.update(true, 0), None);
    assert_eq!(e.update(true, 25), Some(Edge::Rising));
    assert!(e.stable_state());
}

#[test]
fn falling_edge() {
    let mut e = EdgeDetector::new(true, 20);
    assert_eq!(e.update(false, 0), None);
    assert_eq!(e.update(false, 25), Some(Edge::Falling));
    assert!(!e.stable_state());
}

#[test]
fn no_edge_within_debounce_window() {
    let mut e = EdgeDetector::new(false, 20);
    assert_eq!(e.update(true, 0), None);
    assert_eq!(e.update(true, 10), None);
    assert!(!e.stable_state());
}

#[test]
fn edge_bounce_resets_timer() {
    let mut e = EdgeDetector::new(false, 20);
    assert_eq!(e.update(true, 0), None);
    assert_eq!(e.update(false, 10), None);
    assert_eq!(e.update(true, 15), None);
    assert_eq!(e.update(true, 30), None);
    assert_eq!(e.update(true, 40), Some(Edge::Rising));
}

#[test]
fn multiple_edges_in_sequence() {
    let mut e = EdgeDetector::new(false, 20);
    assert_eq!(e.update(true, 0), None);
    assert_eq!(e.update(true, 25), Some(Edge::Rising));
    assert_eq!(e.update(false, 50), None);
    assert_eq!(e.update(false, 75), Some(Edge::Falling));
    assert_eq!(e.update(true, 100), None);
    assert_eq!(e.update(true, 125), Some(Edge::Rising));
    assert!(e.stable_state());
}

#[test]
fn stable_state_delegates_to_debouncer() {
    let e = EdgeDetector::new(true, 20);
    assert!(e.stable_state());
    let e = EdgeDetector::new(false, 20);
    assert!(!e.stable_state());
}

#[test]
fn zero_debounce_rising_edge() {
    let mut e = EdgeDetector::new(false, 0);
    // Zero window: the edge fires on the first changed sample.
    assert_eq!(e.update(true, 0), Some(Edge::Rising));
    assert!(e.stable_state());
}

#[test]
fn zero_debounce_falling_edge() {
    let mut e = EdgeDetector::new(true, 0);
    // Zero window: the edge fires on the first changed sample.
    assert_eq!(e.update(false, 0), Some(Edge::Falling));
    assert!(!e.stable_state());
}

#[test]
fn near_u64_max_ticks_rising_edge() {
    const START: u64 = u64::MAX - 20;
    const DEBOUNCE: u64 = 20;
    let mut e = EdgeDetector::new(false, DEBOUNCE);
    assert_eq!(e.update(true, START), None);
    assert_eq!(e.update(true, START + 19), None);
    assert_eq!(e.update(true, u64::MAX), Some(Edge::Rising));
    assert!(e.stable_state());
}

// --- DebouncedInput (hal adapter) ---


#[test]
fn debounced_input_rising_edge_via_mock() {
    let pin = MockInputPin::new(false);
    let mut input = DebouncedInput::new(pin, false, 20);

    // Pin low — no edge.
    assert_eq!(input.update(0).unwrap(), None);

    // Drive pin high; debounce not yet elapsed.
    input.pin_mut().set_high();
    assert_eq!(input.update(1).unwrap(), None);
    assert_eq!(input.update(10).unwrap(), None);

    // Past the debouncing window — rising edge fires.
    assert_eq!(input.update(25).unwrap(), Some(Edge::Rising));
    assert!(input.stable_state());
}

#[test]
fn debounced_input_falling_edge_via_mock() {
    let pin = MockInputPin::new(true);
    let mut input = DebouncedInput::new(pin, true, 20);

    input.pin_mut().set_low();
    assert_eq!(input.update(0).unwrap(), None);
    assert_eq!(input.update(20).unwrap(), Some(Edge::Falling));
    assert!(!input.stable_state());
}

#[test]
fn debounced_input_pin_accessors() {
    let pin = MockInputPin::new(false);
    let input = DebouncedInput::new(pin, false, 20);
    // Shared ref compiles.
    let _ = input.pin();
}

#[test]
fn debounced_input_bounce_suppressed() {
    let pin = MockInputPin::new(false);
    let mut input = DebouncedInput::new(pin, false, 20);

    // Drive high, then low again (bounce), then high.
    input.pin_mut().set_high();
    assert_eq!(input.update(0).unwrap(), None);
    input.pin_mut().set_low();
    assert_eq!(input.update(10).unwrap(), None);
    input.pin_mut().set_high();
    assert_eq!(input.update(15).unwrap(), None);
    // 15 + 20 = 35: edge fires.
    assert_eq!(input.update(35).unwrap(), Some(Edge::Rising));
}

#[test]
fn try_from_pin_seeds_initial_state_from_hardware() {
    // Pin is high at construction; try_from_pin reads it…
    let pin = MockInputPin::new(true);
    let mut input = DebouncedInput::try_from_pin(pin, 0).unwrap();
    assert!(input.stable_state());
    // …so a steady-high reading produces no spurious edge.
    assert_eq!(input.update(0).unwrap(), None);
}

#[test]
fn explicit_new_mismatched_initial_state_fires_artificial_edge() {
    // Contract: `new` trusts the caller's `initial`. If it disagrees
    // with the real pin level, the first update sees a transition.
    // Here the pin is high but we claim it started low.
    let pin = MockInputPin::new(true);
    let mut input = DebouncedInput::new(pin, false, 0);
    assert_eq!(input.update(0).unwrap(), Some(Edge::Rising));
}
