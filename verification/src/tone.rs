//! Tone/duration sequencer: [`Note`], [`ToneSequencer`], [`SequenceMode`],
//! [`ToneOutput`] and [`SequenceEvent`].
//!
//! A [`ToneSequencer`] steps through a borrowed `&[Note]` table (a melody of
//! frequency + duration + amplitude steps, played once or looped) and reports
//! the current tone for a downstream driver. It never touches hardware.
//!
//! The caller owns the clock. Note boundaries are schedule-accumulating: when
//! a note expires, the baseline for the next note advances by that note's own
//! duration rather than snapping to the polled `now`, so late or jittery
//! polling never stretches the melody. A caller that falls behind catches up
//! one note per `update` call.
use crate::debounce::{elapsed, elapsed_ticks};
use vstd::prelude::*;

verus! {

/// A single step in a tone sequence. `frequency_hz == 0` denotes a rest.
#[derive(Debug, Clone, Copy, PartialEq, Eq, Structural, Hash)]
pub struct Note {
    /// The tone's frequency in Hz. `0` means a rest (silence).
    pub frequency_hz: u32,
    /// How long this note holds, in caller-defined ticks. `0` is valid: the
    /// step advances on the very next update.
    pub duration_ticks: u64,
    /// Output amplitude/volume, `0..=255`.
    pub amplitude: u8,
}

impl Note {
    /// Creates a new note.
    pub fn new(frequency_hz: u32, duration_ticks: u64, amplitude: u8) -> (r: Self)
        ensures
            r == (Note { frequency_hz, duration_ticks, amplitude }),
    {
        Self { frequency_hz, duration_ticks, amplitude }
    }

    /// Creates a rest (silence) of the given duration; equivalent to
    /// `Note::new(0, duration_ticks, 0)`.
    pub fn rest(duration_ticks: u64) -> (r: Self)
        ensures
            r == (Note { frequency_hz: 0, duration_ticks, amplitude: 0 }),
    {
        Self::new(0, duration_ticks, 0)
    }
}

/// How a [`ToneSequencer`] behaves once it reaches the end of its notes.
#[derive(Debug, Clone, Copy, PartialEq, Eq, Structural, Hash)]
pub enum SequenceMode {
    /// Play through the notes once, then stop and hold silence.
    OneShot,
    /// Wrap back to note `0` after the last note and keep playing.
    Loop,
}

/// The tone the downstream hardware adapter should currently produce.
#[derive(Debug, Clone, Copy, PartialEq, Eq, Structural, Hash)]
pub struct ToneOutput {
    /// The frequency to output, in Hz. `0` means silence.
    pub frequency_hz: u32,
    /// The amplitude to output, `0..=255`. `0` means silence.
    pub amplitude: u8,
}

/// The silent output value.
pub open spec fn silent_spec() -> ToneOutput {
    ToneOutput { frequency_hz: 0, amplitude: 0 }
}

impl ToneOutput {
    /// The silent output (`frequency_hz: 0, amplitude: 0`), returned by
    /// [`ToneSequencer::output`] whenever the sequencer is inactive, finished,
    /// or on a 0 Hz note.
    pub fn silent() -> (r: ToneOutput)
        ensures
            r == silent_spec(),
    {
        ToneOutput { frequency_hz: 0, amplitude: 0 }
    }
}

/// An event returned by [`ToneSequencer::update`].
#[derive(Debug, Clone, Copy, PartialEq, Eq, Structural, Hash)]
pub enum SequenceEvent {
    /// Playback advanced to the note at this index.
    NoteChanged(usize),
    /// A one-shot sequence completed its last note. Fires exactly once.
    Finished,
}

/// `a + b`, saturating at `u64::MAX`.
pub open spec fn saturating_add_spec(a: u64, b: u64) -> u64 {
    if a + b > u64::MAX {
        u64::MAX
    } else {
        (a + b) as u64
    }
}

/// Abstract state of a [`ToneSequencer`].
pub struct ToneView {
    /// The note table.
    pub notes: Seq<Note>,
    /// Playback mode.
    pub mode: SequenceMode,
    /// Whether playback is running.
    pub active: bool,
    /// Whether a one-shot sequence has completed (always, for no notes).
    pub finished: bool,
    /// Index of the current note.
    pub index: usize,
    /// Scheduled start tick of the current note.
    pub note_since: u64,
}

impl ToneView {
    /// One sequencer step: the state after advancing to `now`, and the event,
    /// if any.
    pub open spec fn step(self, now: u64) -> (ToneView, Option<SequenceEvent>) {
        if !self.active || self.finished {
            (self, None)
        } else if self.index >= self.notes.len() {
            (ToneView { active: false, ..self }, None)
        } else {
            let current = self.notes[self.index as int];
            if elapsed(now, self.note_since) < current.duration_ticks {
                (self, None)
            } else if self.index + 1 < self.notes.len() {
                (ToneView {
                    note_since: saturating_add_spec(self.note_since, current.duration_ticks),
                    index: (self.index + 1) as usize,
                    ..self
                }, Some(SequenceEvent::NoteChanged((self.index + 1) as usize)))
            } else {
                match self.mode {
                    SequenceMode::Loop => (ToneView {
                        note_since: saturating_add_spec(self.note_since, current.duration_ticks),
                        index: 0,
                        ..self
                    }, Some(SequenceEvent::NoteChanged(0))),
                    SequenceMode::OneShot => (ToneView {
                        active: false,
                        finished: true,
                        ..self
                    }, Some(SequenceEvent::Finished)),
                }
            }
        }
    }

    /// The tone for this state: silence when inactive, finished, or on a
    /// 0 Hz note; otherwise the current note's frequency and amplitude.
    pub open spec fn output(self) -> ToneOutput {
        if !self.active || self.finished || self.index >= self.notes.len() {
            silent_spec()
        } else if self.notes[self.index as int].frequency_hz == 0 {
            silent_spec()
        } else {
            ToneOutput {
                frequency_hz: self.notes[self.index as int].frequency_hz,
                amplitude: self.notes[self.index as int].amplitude,
            }
        }
    }
}

/// Pure tone/duration sequencer (melody player).
///
/// Inactive until [`start`](Self::start); [`update`](Self::update) advances
/// through the notes and [`output`](Self::output) reports the current tone.
#[derive(Debug, Clone, Copy)]
pub struct ToneSequencer<'notes> {
    notes: &'notes [Note],
    mode: SequenceMode,
    active: bool,
    finished: bool,
    index: usize,
    note_since: u64,
}

impl<'notes> View for ToneSequencer<'notes> {
    type V = ToneView;

    closed spec fn view(&self) -> ToneView {
        ToneView {
            notes: self.notes@,
            mode: self.mode,
            active: self.active,
            finished: self.finished,
            index: self.index,
            note_since: self.note_since,
        }
    }
}

impl<'notes> ToneSequencer<'notes> {
    /// Creates a new, inactive sequencer over the given notes. An empty table
    /// is finished from the start (there is nothing to play).
    pub fn new(notes: &'notes [Note], mode: SequenceMode) -> (r: Self)
        ensures
            r@ == (ToneView {
                notes: notes@,
                mode,
                active: false,
                finished: notes@.len() == 0,
                index: 0,
                note_since: 0,
            }),
    {
        Self { notes, mode, active: false, finished: notes.len() == 0, index: 0, note_since: 0 }
    }

    /// (Re)starts playback at note `0` with the tick baseline `now`.
    pub fn start(&mut self, now: u64)
        ensures
            final(self)@ == (ToneView {
                active: old(self)@.notes.len() != 0,
                finished: old(self)@.notes.len() == 0,
                index: 0,
                note_since: now,
                ..old(self)@
            }),
    {
        self.active = self.notes.len() != 0;
        self.finished = self.notes.len() == 0;
        self.index = 0;
        self.note_since = now;
    }

    /// Stops playback (pause to silence). Only the active flag is cleared.
    pub fn stop(&mut self)
        ensures
            final(self)@ == (ToneView { active: false, ..old(self)@ }),
    {
        self.active = false;
    }

    /// Advances the sequencer to the tick `now`; returns at most one event.
    pub fn update(&mut self, now: u64) -> (r: Option<SequenceEvent>)
        ensures
            (final(self)@, r) == old(self)@.step(now),
            final(self)@.notes == old(self)@.notes,
            final(self)@.mode == old(self)@.mode,
            // A stopped or finished sequencer is inert.
            !old(self)@.active || old(self)@.finished ==> r is None && final(self)@ == old(self)@,
            // Finished fires once, for one-shot sequences only.
            r == Some(SequenceEvent::Finished) ==> old(self)@.mode == SequenceMode::OneShot
                && !old(self)@.finished && final(self)@.finished && !final(self)@.active,
            old(self)@.mode == SequenceMode::Loop && !old(self)@.finished ==> !final(self)@.finished,
            // A note change lands on a valid index, and the schedule advances by
            // the expiring note's own duration, independent of `now`.
            r matches Some(SequenceEvent::NoteChanged(i)) ==> i < old(self)@.notes.len()
                && final(self)@.index == i
                && final(self)@.note_since == saturating_add_spec(
                    old(self)@.note_since,
                    old(self)@.notes[old(self)@.index as int].duration_ticks,
                ),
            // Nothing changes before the current note's boundary.
            r is None ==> final(self)@.index == old(self)@.index && final(self)@.note_since == old(self)@.note_since,
    {
        if !self.active || self.finished {
            return None;
        }
        if self.index >= self.notes.len() {
            self.active = false;
            return None;
        }
        let current = self.notes[self.index];
        if elapsed_ticks(now, self.note_since) < current.duration_ticks {
            return None;
        }
        if self.index + 1 < self.notes.len() {
            self.note_since = self.note_since.saturating_add(current.duration_ticks);
            self.index = self.index + 1;
            return Some(SequenceEvent::NoteChanged(self.index));
        }
        match self.mode {
            SequenceMode::Loop => {
                self.note_since = self.note_since.saturating_add(current.duration_ticks);
                self.index = 0;
                Some(SequenceEvent::NoteChanged(0))
            },
            SequenceMode::OneShot => {
                self.active = false;
                self.finished = true;
                Some(SequenceEvent::Finished)
            },
        }
    }

    /// Returns the tone the downstream adapter should currently produce.
    pub fn output(&self) -> (r: ToneOutput)
        ensures
            r == self@.output(),
    {
        if !self.active || self.finished || self.index >= self.notes.len() {
            return ToneOutput::silent();
        }
        let note = self.notes[self.index];
        if note.frequency_hz == 0 {
            ToneOutput::silent()
        } else {
            ToneOutput { frequency_hz: note.frequency_hz, amplitude: note.amplitude }
        }
    }

    /// Returns `true` once a one-shot sequence has completed (always, for an
    /// empty note table).
    pub fn is_finished(&self) -> (r: bool)
        ensures
            r == self@.finished,
    {
        self.finished
    }

    /// Returns `true` while playback is running.
    pub fn is_active(&self) -> (r: bool)
        ensures
            r == self@.active,
    {
        self.active
    }
}

/// The tick baseline after `k` notes have ended, counted from `t0`: `t0`
/// plus the durations of notes `0, 1, ..., k - 1` of the table (wrapping
/// around it), each addition saturating.
pub open spec fn baseline(t0: u64, notes: Seq<Note>, k: nat) -> u64
    decreases k,
{
    if k == 0 || notes.len() == 0 {
        t0
    } else {
        saturating_add_spec(
            baseline(t0, notes, (k - 1) as nat),
            notes[((k - 1) as int) % (notes.len() as int)].duration_ticks,
        )
    }
}

/// The state after feeding the ticks `nows`, in order, to `s`.
pub open spec fn tone_run(s: ToneView, nows: Seq<u64>) -> ToneView
    decreases nows.len(),
{
    if nows.len() == 0 {
        s
    } else {
        tone_run(s, nows.drop_last()).step(nows.last()).0
    }
}

/// The number of `NoteChanged` events while feeding the ticks `nows` to `s`.
pub open spec fn note_changes(s: ToneView, nows: Seq<u64>) -> nat
    decreases nows.len(),
{
    if nows.len() == 0 {
        0
    } else {
        let prev = tone_run(s, nows.drop_last());
        note_changes(s, nows.drop_last()) + if prev.step(nows.last()).1 matches Some(
            SequenceEvent::NoteChanged(_),
        ) {
            1nat
        } else {
            0nat
        }
    }
}

proof fn lemma_mod_succ(k: int, n: int)
    requires
        k >= 0,
        n > 0,
    ensures
        0 <= k % n < n,
        (k + 1) % n == if k % n + 1 < n {
            k % n + 1
        } else {
            0
        },
{
    vstd::arithmetic::div_mod::lemma_add_mod_noop(k, 1, n);
    if n == 1 {
        assert(k % 1 == 0 && (k + 1) % 1 == 0) by (nonlinear_arith);
    } else {
        vstd::arithmetic::div_mod::lemma_small_mod(1, n as nat);
        assert(0 <= k % n < n) by (nonlinear_arith)
            requires
                n > 0,
        ;
        if k % n + 1 < n {
            vstd::arithmetic::div_mod::lemma_small_mod((k % n + 1) as nat, n as nat);
        } else {
            vstd::arithmetic::div_mod::lemma_mod_self_0(n);
        }
    }
}

/// The schedule over a whole run: after [`start`](ToneSequencer::start) at
/// `t0` (note `0`, active, notes present) and any ticks `nows`, the sequencer
/// plays note `k % len` where `k` is the number of notes that have ended,
/// and its baseline is `t0` plus the durations of those `k` notes,
/// saturating; the table and mode never change, and a one-shot sequence
/// ends at most `len - 1` notes before finishing.
pub proof fn lemma_schedule(s: ToneView, nows: Seq<u64>)
    requires
        0 < s.notes.len() <= usize::MAX,
        s.active,
        !s.finished,
        s.index == 0,
    ensures
        ({
            let r = tone_run(s, nows);
            let k = note_changes(s, nows);
            &&& r.notes == s.notes && r.mode == s.mode
            &&& r.index == k % s.notes.len()
            &&& r.note_since == baseline(s.note_since, s.notes, k)
            &&& r.active != r.finished
            &&& r.finished ==> s.mode == SequenceMode::OneShot && r.index == s.notes.len() - 1
            &&& s.mode == SequenceMode::OneShot ==> k < s.notes.len()
        }),
    decreases nows.len(),
{
    let n = s.notes.len() as int;
    if nows.len() == 0 {
        assert(0nat % (n as nat) == 0) by (nonlinear_arith)
            requires
                n > 0,
        ;
    } else {
        let p = nows.drop_last();
        lemma_schedule(s, p);
        let prev = tone_run(s, p);
        let k = note_changes(s, p);
        lemma_mod_succ(k as int, n);
        if s.mode == SequenceMode::OneShot {
            vstd::arithmetic::div_mod::lemma_small_mod(k, n as nat);
        }
        let (next, e) = prev.step(nows.last());
        assert((k as int) % n == k % s.notes.len());
        assert(((k + 1) as int) % n == (k + 1) % s.notes.len());
        if e matches Some(SequenceEvent::NoteChanged(_)) {
            assert(note_changes(s, nows) == k + 1);
            assert(baseline(s.note_since, s.notes, (k + 1) as nat) == saturating_add_spec(
                baseline(s.note_since, s.notes, k),
                s.notes[(k as int) % n].duration_ticks,
            ));
        } else {
            assert(note_changes(s, nows) == k);
        }
    }
}

} // verus!
