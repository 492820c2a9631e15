//! Tests for `tamer::touch`.
use tamer::touch::{SwipeDirection, TouchEvent, TouchPoint, TouchTracker};

// long_press = 600, swipe_min_distance = 50, move_epsilon = 10
// (caller ticks / display pixels).
fn tracker() -> TouchTracker {
    TouchTracker::new(600, 50, 10)
}

fn pt(x: i16, y: i16) -> TouchPoint {
    TouchPoint { x, y }
}

/// Frame-script helper: feeds `(touch, now)` frames and collects the
/// emitted events.
fn feed(tracker: &mut TouchTracker, frames: &[(Option<TouchPoint>, u64)]) -> Vec<TouchEvent> {
    let mut events = Vec::new();
    for &(touch, now) in frames {
        if let Some(event) = tracker.update(touch, now) {
            events.push(event);
        }
    }
    events
}

// --- Edges ---

#[test]
fn down_edge_emits_down_with_point() {
    let mut t = tracker();
    assert_eq!(
        t.update(Some(pt(120, 80)), 0),
        Some(TouchEvent::Down(pt(120, 80)))
    );
    assert!(t.is_touched());
}

#[test]
fn up_edge_emits_up() {
    let mut t = tracker();
    t.update(Some(pt(120, 80)), 0);
    assert_eq!(t.update(None, 20), Some(TouchEvent::Up(pt(120, 80))));
    assert!(!t.is_touched());
}

#[test]
fn second_touch_gets_fresh_origin_and_flags() {
    let mut t = tracker();
    // First touch: hold to LongPress, then drag — both flags set.
    t.update(Some(pt(0, 0)), 0);
    assert_eq!(
        t.update(Some(pt(0, 0)), 600),
        Some(TouchEvent::LongPress(pt(0, 0)))
    );
    assert_eq!(
        t.update(Some(pt(30, 0)), 620),
        Some(TouchEvent::Move(pt(30, 0)))
    );
    assert_eq!(t.update(None, 640), Some(TouchEvent::Up(pt(30, 0)))); // bare Up
    assert_eq!(t.update(None, 660), None);
    // Second touch: fresh origin, cleared flags — an unmoved quick tap
    // classifies as a Tap again.
    assert_eq!(
        t.update(Some(pt(100, 100)), 700),
        Some(TouchEvent::Down(pt(100, 100)))
    );
    assert_eq!(t.update(None, 720), Some(TouchEvent::Up(pt(100, 100))));
    assert_eq!(t.update(None, 740), Some(TouchEvent::Tap(pt(100, 100))));
}

#[test]
fn every_down_bracketed_by_up() {
    // Mixed frame script (tap, swipe, long press): each Down is matched
    // by exactly one Up.
    let mut t = tracker();
    let frames: &[(Option<TouchPoint>, u64)] = &[
        // Quick tap.
        (Some(pt(10, 10)), 0),
        (None, 20), // Up
        (None, 40), // Tap drains
        // Swipe right.
        (Some(pt(0, 0)), 100),
        (Some(pt(60, 0)), 120), // Move
        (None, 140),            // Up
        (None, 160),            // Swipe drains
        // Long press.
        (Some(pt(50, 50)), 200),
        (Some(pt(50, 50)), 900), // LongPress
        (None, 920),             // bare Up
        (None, 940),
    ];
    let events = feed(&mut t, frames);
    let downs = events
        .iter()
        .filter(|e| matches!(e, TouchEvent::Down(_)))
        .count();
    let ups = events
        .iter()
        .filter(|e| matches!(e, TouchEvent::Up(_)))
        .count();
    assert_eq!(downs, 3);
    assert_eq!(downs, ups, "every Down must have a matching Up");
}

// --- Tap ---

#[test]
fn tap_sequence_down_up_then_tap_next_call() {
    let mut t = tracker();
    assert_eq!(
        t.update(Some(pt(120, 80)), 0),
        Some(TouchEvent::Down(pt(120, 80)))
    );
    assert_eq!(t.update(Some(pt(120, 80)), 20), None);
    assert_eq!(t.update(None, 40), Some(TouchEvent::Up(pt(120, 80))));
    // One event per call: the Tap drains on the next update.
    assert_eq!(t.update(None, 60), Some(TouchEvent::Tap(pt(120, 80))));
    assert_eq!(t.update(None, 80), None);
}

#[test]
fn tap_at_exact_epsilon_still_tap() {
    let mut t = tracker();
    t.update(Some(pt(100, 100)), 0);
    // An excursion of exactly `move_epsilon` (Chebyshev) is "within":
    // no Move, no `moved` latch.
    assert_eq!(t.update(Some(pt(110, 100)), 20), None);
    assert_eq!(t.update(None, 40), Some(TouchEvent::Up(pt(100, 100))));
    assert_eq!(t.update(None, 60), Some(TouchEvent::Tap(pt(100, 100))));
}

#[test]
fn move_past_epsilon_cancels_tap() {
    let mut t = tracker();
    t.update(Some(pt(100, 100)), 0);
    // One unit past epsilon latches `moved` and emits Move.
    assert_eq!(
        t.update(Some(pt(111, 100)), 20),
        Some(TouchEvent::Move(pt(111, 100)))
    );
    // Returning to the origin does not help: `moved` never resets, so
    // the release is a bare Up.
    assert_eq!(
        t.update(Some(pt(100, 100)), 40),
        Some(TouchEvent::Move(pt(100, 100)))
    );
    assert_eq!(t.update(None, 60), Some(TouchEvent::Up(pt(100, 100))));
    assert_eq!(t.update(None, 80), None); // no Tap
}

// --- Move ---

#[test]
fn move_emitted_and_reanchored() {
    let mut t = tracker();
    t.update(Some(pt(0, 0)), 0);
    assert_eq!(
        t.update(Some(pt(15, 0)), 20),
        Some(TouchEvent::Move(pt(15, 0)))
    );
    // Within epsilon of the *new* anchor at (15, 0) — nothing.
    assert_eq!(t.update(Some(pt(20, 0)), 40), None);
    // Past epsilon of the anchor — the next Move.
    assert_eq!(
        t.update(Some(pt(26, 0)), 60),
        Some(TouchEvent::Move(pt(26, 0)))
    );
}

#[test]
fn jitter_within_epsilon_emits_nothing() {
    let mut t = tracker();
    t.update(Some(pt(100, 100)), 0);
    let mut now = 0_u64;
    for &(dx, dy) in &[(3_i16, -4_i16), (-5, 2), (0, 7), (-6, -6), (10, 10)] {
        now += 20;
        assert_eq!(t.update(Some(pt(100 + dx, 100 + dy)), now), None);
    }
    assert!(t.is_touched());
}

// --- LongPress ---

#[test]
fn long_press_fires_once_mid_hold() {
    let mut t = tracker();
    t.update(Some(pt(50, 50)), 0);
    assert_eq!(t.update(Some(pt(50, 50)), 300), None); // below threshold
    assert_eq!(
        t.update(Some(pt(50, 50)), 601),
        Some(TouchEvent::LongPress(pt(50, 50)))
    );
    assert_eq!(t.update(Some(pt(50, 50)), 700), None); // fires only once
}

#[test]
fn long_press_exact_boundary() {
    let mut t = tracker();
    t.update(Some(pt(50, 50)), 0);
    assert_eq!(t.update(Some(pt(50, 50)), 599), None); // one tick short
                                                       // elapsed == long_press is inclusive.
    assert_eq!(
        t.update(Some(pt(50, 50)), 600),
        Some(TouchEvent::LongPress(pt(50, 50)))
    );
}

#[test]
fn movement_cancels_long_press() {
    let mut t = tracker();
    t.update(Some(pt(50, 50)), 0);
    assert_eq!(
        t.update(Some(pt(70, 50)), 20),
        Some(TouchEvent::Move(pt(70, 50)))
    );
    // Far past the threshold: no LongPress — movement cancelled it
    // permanently.
    assert_eq!(t.update(Some(pt(70, 50)), 1000), None);
}

#[test]
fn long_press_suppresses_tap() {
    let mut t = tracker();
    t.update(Some(pt(50, 50)), 0);
    assert_eq!(
        t.update(Some(pt(50, 50)), 600),
        Some(TouchEvent::LongPress(pt(50, 50)))
    );
    assert_eq!(t.update(None, 700), Some(TouchEvent::Up(pt(50, 50))));
    assert_eq!(t.update(None, 720), None); // no Tap
}

#[test]
fn long_press_suppresses_swipe() {
    let mut t = tracker();
    t.update(Some(pt(0, 0)), 0);
    assert_eq!(
        t.update(Some(pt(0, 0)), 600),
        Some(TouchEvent::LongPress(pt(0, 0)))
    );
    // Drag past swipe_min_distance after the LongPress: Moves still flow…
    assert_eq!(
        t.update(Some(pt(60, 0)), 620),
        Some(TouchEvent::Move(pt(60, 0)))
    );
    // …but the release is a bare Up — no Swipe.
    assert_eq!(t.update(None, 640), Some(TouchEvent::Up(pt(60, 0))));
    assert_eq!(t.update(None, 660), None);
}

#[test]
fn move_after_long_press_still_emitted() {
    let mut t = tracker();
    t.update(Some(pt(100, 100)), 0);
    assert_eq!(
        t.update(Some(pt(100, 100)), 600),
        Some(TouchEvent::LongPress(pt(100, 100)))
    );
    // Long-press-then-drag: Moves keep flowing after the LongPress.
    assert_eq!(
        t.update(Some(pt(120, 100)), 620),
        Some(TouchEvent::Move(pt(120, 100)))
    );
    assert_eq!(
        t.update(Some(pt(140, 100)), 640),
        Some(TouchEvent::Move(pt(140, 100)))
    );
}

#[test]
fn coarse_poll_long_hold_emits_long_press_then_queued_up() {
    let mut t = tracker();
    t.update(Some(pt(50, 50)), 0);
    // The lift itself crosses the threshold with no mid-hold tick in
    // between: LongPress fires now, the Up is queued for the next call.
    assert_eq!(t.update(None, 900), Some(TouchEvent::LongPress(pt(50, 50))));
    assert_eq!(t.update(None, 920), Some(TouchEvent::Up(pt(50, 50))));
    assert_eq!(t.update(None, 940), None); // gesture suppressed — no Tap
}

// --- Swipe ---

#[test]
fn swipe_all_four_directions() {
    for (end, dir) in [
        (pt(0, -60), SwipeDirection::Up),
        (pt(0, 60), SwipeDirection::Down),
        (pt(-60, 0), SwipeDirection::Left),
        (pt(60, 0), SwipeDirection::Right),
    ] {
        let mut t = tracker();
        t.update(Some(pt(0, 0)), 0);
        assert_eq!(t.update(Some(end), 20), Some(TouchEvent::Move(end)));
        assert_eq!(t.update(None, 40), Some(TouchEvent::Up(end)));
        assert_eq!(t.update(None, 60), Some(TouchEvent::Swipe(dir)));
    }
}

#[test]
fn swipe_exact_min_distance_fires() {
    let mut t = tracker();
    t.update(Some(pt(0, 0)), 0);
    assert_eq!(
        t.update(Some(pt(50, 0)), 20),
        Some(TouchEvent::Move(pt(50, 0)))
    );
    assert_eq!(t.update(None, 40), Some(TouchEvent::Up(pt(50, 0))));
    // A net delta of exactly `swipe_min_distance` is inclusive.
    assert_eq!(
        t.update(None, 60),
        Some(TouchEvent::Swipe(SwipeDirection::Right))
    );
}

#[test]
fn one_unit_short_is_not_swipe() {
    let mut t = tracker();
    t.update(Some(pt(0, 0)), 0);
    assert_eq!(
        t.update(Some(pt(49, 0)), 20),
        Some(TouchEvent::Move(pt(49, 0)))
    );
    assert_eq!(t.update(None, 40), Some(TouchEvent::Up(pt(49, 0))));
    // 49 < 50: not a Swipe — and the drag also cancelled the Tap.
    assert_eq!(t.update(None, 60), None);
}

#[test]
fn dominant_axis_selects_direction() {
    let mut t = tracker();
    t.update(Some(pt(0, 0)), 0);
    // dx = 60, dy = -80: |dy| > |dx| selects the vertical axis.
    t.update(Some(pt(60, -80)), 20); // Move
    t.update(None, 40); // Up
    assert_eq!(
        t.update(None, 60),
        Some(TouchEvent::Swipe(SwipeDirection::Up))
    );
}

#[test]
fn axis_tie_goes_horizontal() {
    // |dx| == |dy|: the tie is documented to go horizontal.
    let mut t = tracker();
    t.update(Some(pt(0, 0)), 0);
    t.update(Some(pt(60, 60)), 20); // Move
    t.update(None, 40); // Up
    assert_eq!(
        t.update(None, 60),
        Some(TouchEvent::Swipe(SwipeDirection::Right))
    );

    let mut t = tracker();
    t.update(Some(pt(0, 0)), 0);
    t.update(Some(pt(-60, -60)), 20); // Move
    t.update(None, 40); // Up
    assert_eq!(
        t.update(None, 60),
        Some(TouchEvent::Swipe(SwipeDirection::Left))
    );
}

#[test]
fn mid_range_drag_release_is_bare_up() {
    let mut t = tracker();
    t.update(Some(pt(0, 0)), 0);
    assert_eq!(
        t.update(Some(pt(30, 0)), 20),
        Some(TouchEvent::Move(pt(30, 0)))
    );
    assert_eq!(t.update(None, 40), Some(TouchEvent::Up(pt(30, 0))));
    // Past epsilon but short of swipe_min_distance: the drag ends
    // quietly — no Tap, no Swipe.
    assert_eq!(t.update(None, 60), None);
}

#[test]
fn swipe_wins_when_config_inverted() {
    // swipe_min_distance (5) < move_epsilon (10) violates the documented
    // assumption but stays deterministic: once a Move re-anchors `last`,
    // the release classifies as a Swipe.
    let mut t = TouchTracker::new(600, 5, 10);
    t.update(Some(pt(0, 0)), 0);
    assert_eq!(
        t.update(Some(pt(12, 0)), 20),
        Some(TouchEvent::Move(pt(12, 0)))
    );
    assert_eq!(t.update(None, 40), Some(TouchEvent::Up(pt(12, 0))));
    assert_eq!(
        t.update(None, 60),
        Some(TouchEvent::Swipe(SwipeDirection::Right))
    );
}

#[test]
fn diagonal_at_epsilon_stays_within() {
    // Chebyshev, not Euclidean: dx == dy == epsilon does not latch
    // `moved` (the Euclidean distance would exceed the epsilon).
    let mut t = tracker();
    t.update(Some(pt(100, 100)), 0);
    assert_eq!(t.update(Some(pt(110, 110)), 20), None);
    assert_eq!(t.update(None, 40), Some(TouchEvent::Up(pt(100, 100))));
    assert_eq!(t.update(None, 60), Some(TouchEvent::Tap(pt(100, 100))));
}

// --- Down/Move ordering ---

#[test]
fn no_move_on_down_call() {
    let mut t = tracker();
    // First contact emits only Down — never a Move, no matter where.
    assert_eq!(
        t.update(Some(pt(300, 200)), 0),
        Some(TouchEvent::Down(pt(300, 200)))
    );
    // A big jump right after the Down is a plain Move on the next call.
    assert_eq!(
        t.update(Some(pt(0, 0)), 20),
        Some(TouchEvent::Move(pt(0, 0)))
    );
}

#[test]
fn one_frame_flicker_emits_up_and_fresh_origin_on_recontact() {
    // An undebounced one-frame `touched` flicker is a real lift: full Up
    // plus queued gesture, and re-contact anchors a fresh origin. The fix
    // for resistive panels is an upstream Debouncer (see module docs).
    let mut t = tracker();
    t.update(Some(pt(50, 50)), 0);
    assert_eq!(t.update(None, 20), Some(TouchEvent::Up(pt(50, 50))));
    // Re-contact on the drain tick: the queued Tap drains first…
    assert_eq!(
        t.update(Some(pt(52, 52)), 40),
        Some(TouchEvent::Tap(pt(50, 50)))
    );
    // …and the still-held touch anchors a fresh origin on the next call.
    assert_eq!(
        t.update(Some(pt(52, 52)), 60),
        Some(TouchEvent::Down(pt(52, 52)))
    );
}

// --- Robustness ---

#[test]
fn now_backwards_saturates_no_long_press() {
    let mut t = tracker();
    t.update(Some(pt(50, 50)), 1000);
    // A regressing clock clamps elapsed to zero — no LongPress, no panic.
    assert_eq!(t.update(Some(pt(50, 50)), 400), None);
    assert_eq!(t.update(Some(pt(50, 50)), 999), None);
    // Once the clock genuinely advances past the threshold, it fires.
    assert_eq!(
        t.update(Some(pt(50, 50)), 1600),
        Some(TouchEvent::LongPress(pt(50, 50)))
    );
}

#[test]
fn near_u64_max_ticks_long_press_confirmed() {
    let mut t = tracker();
    t.update(Some(pt(50, 50)), u64::MAX - 600);
    assert_eq!(t.update(Some(pt(50, 50)), u64::MAX - 1), None); // 599 < 600
    assert_eq!(
        t.update(Some(pt(50, 50)), u64::MAX),
        Some(TouchEvent::LongPress(pt(50, 50)))
    );
}

#[test]
fn extreme_i16_span_swipe_no_overflow() {
    // Full i16 span (-32768 → 32767): deltas are computed in i32, so
    // nothing overflows and the release is a clean Swipe.
    let mut t = tracker();
    t.update(Some(pt(i16::MIN, 0)), 0);
    assert_eq!(
        t.update(Some(pt(i16::MAX, 0)), 20),
        Some(TouchEvent::Move(pt(i16::MAX, 0)))
    );
    assert_eq!(t.update(None, 40), Some(TouchEvent::Up(pt(i16::MAX, 0))));
    assert_eq!(
        t.update(None, 60),
        Some(TouchEvent::Swipe(SwipeDirection::Right))
    );
}

#[test]
fn down_on_drain_tick_is_delayed_not_lost() {
    let mut t = tracker();
    t.update(Some(pt(10, 10)), 0);
    assert_eq!(t.update(None, 20), Some(TouchEvent::Up(pt(10, 10)))); // pending = Tap
                                                                      // A touch landing exactly on the drain tick yields the queued Tap;
                                                                      // the touch frame itself is skipped and its coordinates are gone.
    assert_eq!(
        t.update(Some(pt(90, 90)), 40),
        Some(TouchEvent::Tap(pt(10, 10)))
    );
    assert!(!t.is_touched()); // the skipped frame did not change state
                              // The still-held touch is picked up next call, anchored at the *next*
                              // frame's point.
    assert_eq!(
        t.update(Some(pt(92, 92)), 60),
        Some(TouchEvent::Down(pt(92, 92)))
    );
}

#[test]
fn is_touched_and_position_track_state() {
    let mut t = tracker();
    assert!(!t.is_touched());
    assert_eq!(t.position(), None);
    t.update(Some(pt(10, 20)), 0);
    assert!(t.is_touched());
    assert_eq!(t.position(), Some(pt(10, 20)));
    // `position` re-anchors on each emitted Move…
    t.update(Some(pt(40, 20)), 20); // Move
    assert_eq!(t.position(), Some(pt(40, 20)));
    // …but jitter within epsilon does not move the reported position.
    t.update(Some(pt(42, 20)), 40);
    assert_eq!(t.position(), Some(pt(40, 20)));
    t.update(None, 60); // Up
    assert!(!t.is_touched());
    assert_eq!(t.position(), None);
}
