//! Tests for `tamer::tone`.
use tamer::tone::{Note, SequenceEvent, SequenceMode, ToneOutput, ToneSequencer};

// --- Note ---

#[test]
fn rest_is_zero_frequency_and_amplitude() {
    let r = Note::rest(100);
    assert_eq!(r.frequency_hz, 0);
    assert_eq!(r.amplitude, 0);
    assert_eq!(r.duration_ticks, 100);
}

#[test]
fn new_stores_fields_verbatim() {
    let n = Note::new(440, 100, 200);
    assert_eq!(n.frequency_hz, 440);
    assert_eq!(n.duration_ticks, 100);
    assert_eq!(n.amplitude, 200);
}

// --- Basic playback + exact boundary ---

#[test]
fn basic_playback_and_note_changed_at_exact_boundary() {
    let notes: [Note; 2] = [Note::new(440, 100, 255), Note::new(880, 50, 255)];
    let mut p = ToneSequencer::new(&notes, SequenceMode::OneShot);
    p.start(0);

    assert_eq!(p.output().frequency_hz, 440);
    // One tick before the boundary: no change (off-by-one check).
    assert_eq!(p.update(99), None);
    assert_eq!(p.output().frequency_hz, 440);
    // Exactly at the boundary (elapsed == duration): advances.
    assert_eq!(p.update(100), Some(SequenceEvent::NoteChanged(1)));
    assert_eq!(p.output().frequency_hz, 880);
}

#[test]
fn one_tick_past_boundary_still_advances() {
    let notes: [Note; 2] = [Note::new(440, 100, 255), Note::new(880, 50, 255)];
    let mut p = ToneSequencer::new(&notes, SequenceMode::OneShot);
    p.start(0);
    assert_eq!(p.update(101), Some(SequenceEvent::NoteChanged(1)));
}

// --- Schedule-accumulating boundaries (no drift under jitter/coarse polling) ---

#[test]
fn coarse_polling_preserves_schedule_without_drift() {
    // Three 100-tick notes: schedule boundaries at t=100, t=200, t=300.
    let notes: [Note; 3] = [
        Note::new(440, 100, 255),
        Note::new(880, 100, 255),
        Note::new(220, 100, 255),
    ];
    let mut p = ToneSequencer::new(&notes, SequenceMode::OneShot);
    p.start(0);

    // A single coarse poll at t=250 is 150 ticks past the first boundary
    // (t=100). Only ONE note-changed event fires per `update` call, so
    // this advances exactly to note 1 — it does not skip ahead to note 2
    // even though 250 >= 200 as well.
    assert_eq!(p.update(250), Some(SequenceEvent::NoteChanged(1)));
    assert_eq!(p.output().frequency_hz, 880);

    // Schedule-accumulating semantics: note 1's baseline is anchored at
    // the *schedule* (t=100, note 0's own duration), not at the t=250
    // poll time. Its boundary is therefore t=100+100=200, which the next
    // poll at t=250 has already passed — so a following `update(250)`
    // immediately advances again instead of waiting another full 100
    // ticks from t=250 (which the old rebase-to-`now` behavior would
    // have done: `note_since` would have been set to 250, pushing the
    // next boundary out to t=350).
    assert_eq!(p.update(250), Some(SequenceEvent::NoteChanged(2)));
    assert_eq!(p.output().frequency_hz, 220);

    // Note 2's schedule boundary is t=200+100=300, which has NOT yet
    // been reached by t=250 (already accounted for above) — confirm no
    // further, spurious advance at the same poll time.
    assert_eq!(p.update(250), None);
    assert_eq!(p.output().frequency_hz, 220);

    // Finishes exactly at the true schedule boundary, t=300.
    assert_eq!(p.update(300), Some(SequenceEvent::Finished));
}

#[test]
fn jitter_does_not_accumulate() {
    // A 100-tick note followed by another 100-tick note: schedule
    // boundaries at t=100 and t=200.
    let notes: [Note; 3] = [
        Note::new(440, 100, 255),
        Note::new(880, 100, 255),
        Note::new(220, 100, 255),
    ];
    let mut p = ToneSequencer::new(&notes, SequenceMode::OneShot);
    p.start(0);

    // Poll slightly late (5-tick jitter past the t=100 boundary).
    assert_eq!(p.update(105), Some(SequenceEvent::NoteChanged(1)));
    assert_eq!(p.output().frequency_hz, 880);

    // The 5 ticks of lateness must NOT be baked into the schedule: note
    // 1's boundary stays at the schedule-relative t=100+100=200, not
    // t=105+100=205. One tick early (t=199) must not advance yet.
    assert_eq!(p.update(199), None);
    assert_eq!(p.output().frequency_hz, 880);
    // Exactly at the true schedule boundary, t=200, it advances.
    assert_eq!(p.update(200), Some(SequenceEvent::NoteChanged(2)));
    assert_eq!(p.output().frequency_hz, 220);
}

#[test]
fn loop_wrap_schedule_survives_coarse_polling() {
    // The `Loop` wrap branch has its own accumulate statement, so it needs
    // its own coarse-poll coverage. Two 10-tick notes: schedule boundaries
    // at t=10, 20, 30, 40, 50, ...
    let notes: [Note; 2] = [Note::new(440, 10, 255), Note::new(880, 10, 255)];
    let mut p = ToneSequencer::new(&notes, SequenceMode::Loop);
    p.start(0);

    // Coarse poll past the first boundary (t=10) but before the second.
    assert_eq!(p.update(15), Some(SequenceEvent::NoteChanged(1)));
    // The wrap boundary is schedule-anchored at t=20, NOT poll-anchored at
    // t=15+10=25 — so this same-tick poll must not advance yet.
    assert_eq!(p.update(15), None);
    // At the true schedule boundary t=20 the sequence wraps to note 0.
    assert_eq!(p.update(20), Some(SequenceEvent::NoteChanged(0)));

    // A genuinely coarse poll at t=45 walks two schedule boundaries
    // (t=30 then t=40), one per call, and stops before t=50.
    assert_eq!(p.update(45), Some(SequenceEvent::NoteChanged(1)));
    assert_eq!(p.update(45), Some(SequenceEvent::NoteChanged(0)));
    assert_eq!(p.update(45), None);
    assert!(!p.is_finished());
}

// --- Rests ---

#[test]
fn rest_outputs_silence_while_active_then_advances() {
    let notes: [Note; 2] = [Note::rest(50), Note::new(440, 50, 255)];
    let mut p = ToneSequencer::new(&notes, SequenceMode::OneShot);
    p.start(0);

    assert_eq!(
        p.output(),
        ToneOutput {
            frequency_hz: 0,
            amplitude: 0
        }
    );
    assert_eq!(p.update(25), None);
    assert_eq!(p.output().frequency_hz, 0);
    assert_eq!(p.update(50), Some(SequenceEvent::NoteChanged(1)));
    assert_eq!(p.output().frequency_hz, 440);
}

#[test]
fn zero_hz_note_with_nonzero_amplitude_outputs_silent() {
    // Not constructed via `Note::rest` — a hand-built note with a nonzero
    // amplitude but `frequency_hz == 0` must still coerce to full silence.
    let notes: [Note; 1] = [Note::new(0, 100, 255)];
    let mut p = ToneSequencer::new(&notes, SequenceMode::OneShot);
    p.start(0);

    assert_eq!(p.output(), ToneOutput::silent());
}

// --- Zero-duration notes ---

#[test]
fn zero_duration_note_advances_on_next_update_without_looping_forever() {
    let notes: [Note; 3] = [
        Note::new(100, 0, 255),
        Note::new(200, 0, 255),
        Note::new(300, 10, 255),
    ];
    let mut p = ToneSequencer::new(&notes, SequenceMode::OneShot);
    p.start(0);

    assert_eq!(p.output().frequency_hz, 100);
    // A single `update` call advances at most one step, even though the
    // next note also has zero duration.
    assert_eq!(p.update(0), Some(SequenceEvent::NoteChanged(1)));
    assert_eq!(p.output().frequency_hz, 200);
    assert_eq!(p.update(0), Some(SequenceEvent::NoteChanged(2)));
    assert_eq!(p.output().frequency_hz, 300);
    // The last note has a real duration, so it holds now.
    assert_eq!(p.update(0), None);
    assert_eq!(p.update(10), Some(SequenceEvent::Finished));
}

#[test]
fn accumulate_survives_zero_duration_notes_under_coarse_polling() {
    // The scenario the old rebase-to-`now` logic got wrong: two
    // zero-duration notes keep the schedule anchor at t=0, so the real
    // note's true boundary stays at t=10 no matter how far past it `now`
    // is polled. Rebasing to `now` on a zero-duration advance would have
    // pushed that boundary out to `now + 10`, wrongly delaying expiry.
    let notes: [Note; 3] = [
        Note::new(100, 0, 255),
        Note::new(200, 0, 255),
        Note::new(300, 10, 255),
    ];
    let mut p = ToneSequencer::new(&notes, SequenceMode::OneShot);
    p.start(0);

    // The same coarse `now` (1_000) on three successive calls: each
    // advances one note, the anchor stays at 0 (0 + 0 + 0), so note 2
    // still expires against the true t=10 boundary — 1_000 is well past
    // it — rather than being pushed out to 1_000 + 10.
    assert_eq!(p.update(1_000), Some(SequenceEvent::NoteChanged(1)));
    assert_eq!(p.update(1_000), Some(SequenceEvent::NoteChanged(2)));
    assert_eq!(p.update(1_000), Some(SequenceEvent::Finished));
}

// --- OneShot completion ---

#[test]
fn oneshot_finishes_exactly_once_then_stays_silent() {
    let notes: [Note; 1] = [Note::new(440, 100, 255)];
    let mut p = ToneSequencer::new(&notes, SequenceMode::OneShot);
    p.start(0);

    assert_eq!(p.update(100), Some(SequenceEvent::Finished));
    assert!(p.is_finished());
    assert_eq!(
        p.output(),
        ToneOutput {
            frequency_hz: 0,
            amplitude: 0
        }
    );

    // Subsequent updates are inert.
    assert_eq!(p.update(200), None);
    assert_eq!(p.update(1_000_000), None);
    assert!(p.is_finished());
    assert_eq!(p.output().frequency_hz, 0);
}

// --- Loop wraps, never finishes ---

#[test]
fn loop_wraps_to_note_zero_and_never_finishes() {
    let notes: [Note; 2] = [Note::new(440, 10, 255), Note::new(880, 10, 255)];
    let mut p = ToneSequencer::new(&notes, SequenceMode::Loop);
    p.start(0);

    // First full cycle.
    assert_eq!(p.update(10), Some(SequenceEvent::NoteChanged(1)));
    assert_eq!(p.update(20), Some(SequenceEvent::NoteChanged(0)));
    assert!(!p.is_finished());
    // Second full cycle.
    assert_eq!(p.update(30), Some(SequenceEvent::NoteChanged(1)));
    assert_eq!(p.update(40), Some(SequenceEvent::NoteChanged(0)));
    assert!(!p.is_finished());
    assert!(p.is_active());
}

#[test]
fn loop_mode_all_zero_duration_advances_one_step_per_update() {
    let notes: [Note; 2] = [Note::new(100, 0, 255), Note::new(200, 0, 255)];
    let mut p = ToneSequencer::new(&notes, SequenceMode::Loop);
    p.start(0);
    assert_eq!(p.update(0), Some(SequenceEvent::NoteChanged(1)));
    assert_eq!(p.update(0), Some(SequenceEvent::NoteChanged(0)));
    assert!(!p.is_finished());
}

// --- Empty slice ---

#[test]
fn empty_slice_is_finished_immediately_and_never_panics() {
    let notes: [Note; 0] = [];
    let mut p = ToneSequencer::new(&notes, SequenceMode::OneShot);

    assert!(p.is_finished());
    assert_eq!(
        p.output(),
        ToneOutput {
            frequency_hz: 0,
            amplitude: 0
        }
    );

    // start()/update() on an empty table must not panic or index OOB.
    p.start(0);
    assert!(p.is_finished());
    assert!(!p.is_active());
    assert_eq!(p.update(0), None);
    assert_eq!(p.output().frequency_hz, 0);
}

#[test]
fn empty_slice_loop_mode_is_also_finished() {
    let notes: [Note; 0] = [];
    let mut p = ToneSequencer::new(&notes, SequenceMode::Loop);
    assert!(p.is_finished());
    p.start(0);
    assert!(p.is_finished());
    assert_eq!(p.update(0), None);
}

// --- Non-monotonic `now` ---

#[test]
fn non_monotonic_now_saturates_without_panic_or_spurious_advance() {
    let notes: [Note; 2] = [Note::new(440, 100, 255), Note::new(880, 50, 255)];
    let mut p = ToneSequencer::new(&notes, SequenceMode::OneShot);
    p.start(100);

    // `now` earlier than the note's start: saturating_sub clamps to 0.
    assert_eq!(p.update(50), None);
    assert_eq!(p.output().frequency_hz, 440);
    // Still doesn't advance until the real boundary from note_since=100.
    assert_eq!(p.update(150), None);
    assert_eq!(p.update(200), Some(SequenceEvent::NoteChanged(1)));
}

// --- Near-u64::MAX ---

#[test]
fn near_u64_max_start_transitions_correctly() {
    let notes: [Note; 2] = [Note::new(440, 50, 255), Note::new(880, 50, 255)];
    let mut p = ToneSequencer::new(&notes, SequenceMode::OneShot);
    let start = u64::MAX - 50;
    p.start(start);

    assert_eq!(p.update(u64::MAX - 1), None);
    assert_eq!(p.update(u64::MAX), Some(SequenceEvent::NoteChanged(1)));
    assert_eq!(p.output().frequency_hz, 880);
}

#[test]
fn near_u64_max_oneshot_finishes() {
    let notes: [Note; 1] = [Note::new(440, 10, 255)];
    let mut p = ToneSequencer::new(&notes, SequenceMode::OneShot);
    p.start(u64::MAX - 10);
    assert_eq!(p.update(u64::MAX), Some(SequenceEvent::Finished));
    assert!(p.is_finished());
}

// --- start() restarts from note 0 ---

#[test]
fn start_while_active_restarts_from_note_zero_and_resets_baseline() {
    let notes: [Note; 2] = [Note::new(440, 100, 255), Note::new(880, 100, 255)];
    let mut p = ToneSequencer::new(&notes, SequenceMode::OneShot);
    p.start(0);
    assert_eq!(p.update(100), Some(SequenceEvent::NoteChanged(1)));
    assert_eq!(p.output().frequency_hz, 880);

    // Restart mid-sequence: back to note 0, baseline reset to the new `now`.
    p.start(1_000);
    assert_eq!(p.output().frequency_hz, 440);
    assert!(p.is_active());
    assert!(!p.is_finished());
    // Baseline is 1_000, not 0 — an old-baseline elapsed check would fire early.
    assert_eq!(p.update(1_050), None);
    assert_eq!(p.update(1_100), Some(SequenceEvent::NoteChanged(1)));
}

#[test]
fn start_after_finished_resets_finished_flag() {
    let notes: [Note; 1] = [Note::new(440, 10, 255)];
    let mut p = ToneSequencer::new(&notes, SequenceMode::OneShot);
    p.start(0);
    assert_eq!(p.update(10), Some(SequenceEvent::Finished));
    assert!(p.is_finished());

    p.start(100);
    assert!(!p.is_finished());
    assert!(p.is_active());
    assert_eq!(p.output().frequency_hz, 440);
}

// --- stop() ---

#[test]
fn stop_silences_output_and_suspends_update() {
    let notes: [Note; 1] = [Note::new(440, 100, 255)];
    let mut p = ToneSequencer::new(&notes, SequenceMode::Loop);
    p.start(0);
    assert!(p.is_active());

    p.stop();
    assert!(!p.is_active());
    assert_eq!(p.output().frequency_hz, 0);
    // update() is a no-op while stopped.
    assert_eq!(p.update(1_000), None);
    assert_eq!(p.output().frequency_hz, 0);
}

// --- inactive-before-start ---

#[test]
fn inactive_before_start_is_silent_and_update_is_noop() {
    let notes: [Note; 1] = [Note::new(440, 100, 255)];
    let mut p = ToneSequencer::new(&notes, SequenceMode::OneShot);

    assert!(!p.is_active());
    assert!(!p.is_finished());
    assert_eq!(p.output().frequency_hz, 0);
    assert_eq!(p.update(0), None);
    assert_eq!(p.update(1_000), None);
}
