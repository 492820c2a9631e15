//! Debounced input primitives: [`Debouncer`], [`Edge`], [`EdgeDetector`] and
//! the [`DebouncedInput`] pin adapter.
//!
//! The caller owns the clock: every `update` takes a monotonic `u64` tick.
//! Elapsed time is computed with a saturating subtraction, so a timestamp
//! earlier than the start of a pending transition counts as zero elapsed
//! ticks and delays the transition instead of producing a spurious one.
use crate::digital::DigitalRead;
use vstd::prelude::*;

verus! {

/// Ticks elapsed from `since` to `now`, clamped at zero when the clock runs
/// backwards (`now.saturating_sub(since)`).
pub open spec fn elapsed(now: u64, since: u64) -> int {
    if now >= since {
        now - since
    } else {
        0
    }
}

/// Ticks elapsed from `since` to `now`, clamped at zero when the clock runs
/// backwards.
pub fn elapsed_ticks(now: u64, since: u64) -> (r: u64)
    ensures
        r == elapsed(now, since),
    no_unwind
{
    if now >= since {
        now - since
    } else {
        0
    }
}

/// Abstract state of a [`Debouncer`].
pub struct DebouncerView {
    /// The debounced (stable) level.
    pub stable: bool,
    /// The level that differs from `stable` and the tick at which it was
    /// first seen, while a transition is pending.
    pub pending: Option<(bool, u64)>,
    /// The debounce window in ticks.
    pub debounce: u64,
}

impl DebouncerView {
    /// A pending level always differs from the stable level.
    pub open spec fn wf(self) -> bool {
        self.pending matches Some(p) ==> p.0 != self.stable
    }

    /// The tick from which a changed `raw` level is timed: the start of the
    /// pending transition when it is for the same level, `now` otherwise.
    pub open spec fn pending_start(self, raw: bool, now: u64) -> u64 {
        match self.pending {
            Some(p) => if p.0 == raw {
                p.1
            } else {
                now
            },
            None => now,
        }
    }

    /// One debouncer step: the state after feeding `raw` at `now`, and the
    /// confirmed transition, if any.
    pub open spec fn step(self, raw: bool, now: u64) -> (DebouncerView, Option<bool>) {
        if raw == self.stable {
            (DebouncerView { pending: None, ..self }, None)
        } else if elapsed(now, self.pending_start(raw, now)) >= self.debounce {
            (DebouncerView { stable: raw, pending: None, ..self }, Some(raw))
        } else {
            (DebouncerView { pending: Some((raw, self.pending_start(raw, now))), ..self }, None)
        }
    }
}

/// A transition is confirmed only once the new level has been seen for the
/// whole window: a sample equal to the stable level cancels any pending
/// transition, a window of `0` confirms the first changed sample at once,
/// and a clock that runs backwards (`now` before the pending start) never
/// confirms a transition under a non-zero window.
pub proof fn lemma_debounce_window(s: DebouncerView, raw: bool, now: u64)
    ensures
        raw == s.stable ==> s.step(raw, now).1 is None && s.step(raw, now).0.pending is None,
        s.step(raw, now).1 is Some ==> elapsed(now, s.pending_start(raw, now)) >= s.debounce,
        s.debounce == 0 && raw != s.stable ==> s.step(raw, now).1 == Some(raw),
        s.debounce > 0 && now <= s.pending_start(raw, now) ==> s.step(raw, now).1 is None,
        s.wf() ==> s.step(raw, now).0.wf(),
{
}

/// The state after feeding a sequence of `(raw, now)` samples, in order.
pub open spec fn run(s: DebouncerView, samples: Seq<(bool, u64)>) -> DebouncerView
    decreases samples.len(),
{
    if samples.len() == 0 {
        s
    } else {
        run(s, samples.drop_last()).step(samples.last().0, samples.last().1).0
    }
}

/// Every sample from index `k` on has the level `v`.
pub open spec fn held_from(samples: Seq<(bool, u64)>, k: int, v: bool) -> bool {
    forall|j: int| k <= j < samples.len() ==> (#[trigger] samples[j]).0 == v
}

/// A pending transition is backed by history: its start tick is the tick of
/// a sample from which every later sample had the pending level.
pub proof fn lemma_run_pending(s: DebouncerView, samples: Seq<(bool, u64)>)
    requires
        s.pending is None,
    ensures
        run(s, samples).pending matches Some(p) ==> exists|k: int|
            0 <= k < samples.len() && (#[trigger] samples[k]).1 == p.1 && held_from(samples, k, p.0),
    decreases samples.len(),
{
    if samples.len() > 0 {
        let prefix = samples.drop_last();
        lemma_run_pending(s, prefix);
        let prev = run(s, prefix);
        let raw = samples.last().0;
        let now = samples.last().1;
        let n = samples.len() - 1;
        if let Some(p) = run(s, samples).pending {
            if prev.pending is Some && prev.pending.unwrap().0 == raw {
                let q = prev.pending.unwrap();
                let k = choose|k: int| 0 <= k < prefix.len() && (#[trigger] prefix[k]).1 == q.1 && held_from(prefix, k, q.0);
                assert(samples[k] == prefix[k]);
                assert forall|j: int| k <= j < samples.len() implies (#[trigger] samples[j]).0 == p.0 by {
                    if j < n {
                        assert(samples[j] == prefix[j]);
                    }
                }
            } else {
                assert(samples[n] == samples.last());
                assert forall|j: int| n <= j < samples.len() implies (#[trigger] samples[j]).0 == p.0 by {}
            }
        }
    }
}

/// The debounce window in the large: when, after a run of samples from a
/// state with nothing pending, a sample at `now` confirms a transition to
/// `v`, then either the window is `0`, or the level `v` was fed without
/// interruption from a sample at least a full window before `now` up to and
/// including this one.
pub proof fn lemma_transition_needs_full_window(
    s: DebouncerView,
    samples: Seq<(bool, u64)>,
    raw: bool,
    now: u64,
)
    requires
        s.pending is None,
    ensures
        run(s, samples).step(raw, now).1 matches Some(v) ==> v == raw && (s.debounce == 0 || exists|k: int|
            0 <= k < samples.len() && held_from(samples, k, v) && elapsed(now, (#[trigger] samples[k]).1)
                >= s.debounce),
{
    lemma_run_pending(s, samples);
    lemma_run_keeps_window(s, samples);
    let prev = run(s, samples);
    if let Some(v) = prev.step(raw, now).1 {
        if prev.pending is Some && prev.pending.unwrap().0 == raw {
            let q = prev.pending.unwrap();
            let k = choose|k: int| 0 <= k < samples.len() && (#[trigger] samples[k]).1 == q.1 && held_from(samples, k, q.0);
            assert(elapsed(now, samples[k].1) >= s.debounce);
        }
    }
}

/// The index at which the trailing run of equal levels in `samples` starts:
/// every sample from it on has the level of the last sample, and the sample
/// just before it (if any) has the other level. `0` when `samples` is empty.
pub open spec fn run_start(samples: Seq<(bool, u64)>) -> int
    decreases samples.len(),
{
    if samples.len() <= 1 {
        0
    } else if samples[samples.len() - 2].0 == samples.last().0 {
        run_start(samples.drop_last())
    } else {
        samples.len() - 1
    }
}

/// The trailing run really is a run: it starts inside `samples`, every
/// sample from its start on has the last level, and the one before differs.
pub proof fn lemma_run_start(samples: Seq<(bool, u64)>)
    requires
        samples.len() > 0,
    ensures
        0 <= run_start(samples) < samples.len(),
        held_from(samples, run_start(samples), samples.last().0),
        run_start(samples) > 0 ==> samples[run_start(samples) - 1].0 != samples.last().0,
    decreases samples.len(),
{
    if samples.len() > 1 && samples[samples.len() - 2].0 == samples.last().0 {
        let p = samples.drop_last();
        lemma_run_start(p);
        assert forall|j: int| run_start(samples) <= j < samples.len() implies (#[trigger] samples[j]).0
            == samples.last().0 by {
            if j < samples.len() - 1 {
                assert(samples[j] == p[j]);
            }
        }
        if run_start(p) > 0 {
            assert(samples[run_start(p) - 1] == p[run_start(p) - 1]);
        }
    }
}

/// What is pending after a run of samples from a state with nothing pending:
/// when the last sample differs from the stable level, a transition to it is
/// pending since the first sample of its trailing run; otherwise nothing is.
pub proof fn lemma_pending_since_run_start(s: DebouncerView, samples: Seq<(bool, u64)>)
    requires
        s.wf(),
        s.pending is None,
    ensures
        run(s, samples).wf(),
        samples.len() > 0 && samples.last().0 != run(s, samples).stable ==> run(s, samples).pending == Some(
            (samples.last().0, samples[run_start(samples)].1),
        ),
        !(samples.len() > 0 && samples.last().0 != run(s, samples).stable) ==> run(s, samples).pending is None,
    decreases samples.len(),
{
    if samples.len() > 0 {
        let p = samples.drop_last();
        lemma_pending_since_run_start(s, p);
        lemma_debounce_window(run(s, p), samples.last().0, samples.last().1);
        if p.len() > 0 {
            assert(p.last() == samples[samples.len() - 2]);
            if p.last().0 == samples.last().0 {
                assert(run_start(samples) == run_start(p));
                lemma_run_start(p);
                assert(samples[run_start(p)] == p[run_start(p)]);
            }
        }
    }
}

/// The debounce timing origin: after a run of samples from a state with
/// nothing pending, a sample `raw` that differs from the stable level
/// confirms a transition exactly when a full window has elapsed since the
/// first sample of the current unbroken run of `raw` samples (this sample,
/// when it starts the run); a sample equal to the stable level confirms
/// nothing.
pub proof fn lemma_timing_origin(s: DebouncerView, samples: Seq<(bool, u64)>, raw: bool, now: u64)
    requires
        s.wf(),
        s.pending is None,
    ensures
        ({
            let prev = run(s, samples);
            let t0 = if samples.len() > 0 && samples.last().0 == raw {
                samples[run_start(samples)].1
            } else {
                now
            };
            &&& raw == prev.stable ==> prev.step(raw, now).1 is None
            &&& raw != prev.stable ==> prev.step(raw, now).1 == (if elapsed(now, t0) >= s.debounce {
                Some(raw)
            } else {
                None::<bool>
            })
        }),
{
    lemma_pending_since_run_start(s, samples);
    lemma_run_keeps_window(s, samples);
}

/// Feeding samples never changes the debounce window.
pub proof fn lemma_run_keeps_window(s: DebouncerView, samples: Seq<(bool, u64)>)
    ensures
        run(s, samples).debounce == s.debounce,
    decreases samples.len(),
{
    if samples.len() > 0 {
        lemma_run_keeps_window(s, samples.drop_last());
    }
}

/// A time-based boolean signal debouncer.
///
/// Tracks a stable state and requires the raw input to remain at a new level
/// for the full debounce window before reporting a transition. A window of
/// `0` means no debouncing: the first changed sample transitions at once.
#[derive(Debug, Clone, Copy)]
pub struct Debouncer {
    stable: bool,
    pending: Option<bool>,
    pending_since: Option<u64>,
    debounce: u64,
}

impl View for Debouncer {
    type V = DebouncerView;

    closed spec fn view(&self) -> DebouncerView {
        DebouncerView {
            stable: self.stable,
            pending: match self.pending {
                Some(v) => match self.pending_since {
                    Some(t) => Some((v, t)),
                    None => None,
                },
                None => None,
            },
            debounce: self.debounce,
        }
    }
}

impl Debouncer {
    #[verifier::type_invariant]
    spec fn inv(self) -> bool {
        &&& self.pending.is_some() == self.pending_since.is_some()
        &&& (self.pending matches Some(v) ==> v != self.stable)
    }

    /// Creates a new debouncer with the given initial stable state and
    /// debounce window (in caller-defined ticks).
    pub fn new(initial: bool, debounce: u64) -> (r: Self)
        ensures
            r@ == (DebouncerView { stable: initial, pending: None, debounce }),
    {
        Self { stable: initial, pending: None, pending_since: None, debounce }
    }

    /// Feeds a raw reading at the given timestamp.
    ///
    /// Returns `Some(new_state)` when the input has been at a level other than
    /// the stable one for the full debounce window, `None` otherwise.
    pub fn update(&mut self, raw: bool, now: u64) -> (r: Option<bool>)
        ensures
            (final(self)@, r) == old(self)@.step(raw, now),
            final(self)@.wf(),
            r matches Some(v) ==> v == raw && v != old(self)@.stable && final(self)@.stable == v,
            r is None ==> final(self)@.stable == old(self)@.stable,
            final(self)@.debounce == old(self)@.debounce,
        no_unwind
    {
        proof {
            use_type_invariant(&*self);
        }
        if raw == self.stable {
            *self = Self { stable: self.stable, pending: None, pending_since: None, debounce: self.debounce };
            return None;
        }
        let since = match self.pending {
            Some(v) if v == raw => match self.pending_since {
                Some(t) => t,
                None => now,
            },
            _ => now,
        };
        if elapsed_ticks(now, since) >= self.debounce {
            *self = Self { stable: raw, pending: None, pending_since: None, debounce: self.debounce };
            Some(raw)
        } else {
            *self = Self { stable: self.stable, pending: Some(raw), pending_since: Some(since), debounce: self.debounce };
            None
        }
    }

    /// Returns the current stable (debounced) state.
    pub fn stable_state(&self) -> (r: bool)
        ensures
            r == self@.stable,
        no_unwind
    {
        self.stable
    }
}

/// A detected signal transition direction.
#[derive(Debug, Clone, Copy, PartialEq, Eq, Structural, Hash)]
pub enum Edge {
    /// The signal transitioned from low to high.
    Rising,
    /// The signal transitioned from high to low.
    Falling,
}

/// The edge reported for a confirmed transition to level `new_state`.
pub open spec fn edge_of(new_state: bool) -> Edge {
    if new_state {
        Edge::Rising
    } else {
        Edge::Falling
    }
}

/// Debounced edge detector: a [`Debouncer`] that reports the direction of
/// each confirmed transition as an [`Edge`].
#[derive(Debug, Clone, Copy)]
pub struct EdgeDetector {
    debouncer: Debouncer,
}

impl View for EdgeDetector {
    type V = DebouncerView;

    closed spec fn view(&self) -> DebouncerView {
        self.debouncer@
    }
}

impl EdgeDetector {
    /// The abstract step of an edge detector: the debouncer step with the
    /// confirmed level reported as an edge.
    pub open spec fn step(s: DebouncerView, raw: bool, now: u64) -> (DebouncerView, Option<Edge>) {
        let (next, t) = s.step(raw, now);
        (next, match t {
            Some(v) => Some(edge_of(v)),
            None => None,
        })
    }

    /// Creates a new edge detector with the given initial stable state and
    /// debounce window (in caller-defined ticks).
    pub fn new(initial: bool, debounce: u64) -> (r: Self)
        ensures
            r@ == (DebouncerView { stable: initial, pending: None, debounce }),
    {
        Self { debouncer: Debouncer::new(initial, debounce) }
    }

    /// Feeds a raw reading at the given timestamp; returns the edge of a
    /// confirmed transition, if any.
    pub fn update(&mut self, raw: bool, now: u64) -> (r: Option<Edge>)
        ensures
            (final(self)@, r) == Self::step(old(self)@, raw, now),
            final(self)@.wf(),
            r == Some(Edge::Rising) ==> !old(self)@.stable && final(self)@.stable,
            r == Some(Edge::Falling) ==> old(self)@.stable && !final(self)@.stable,
            r is None ==> final(self)@.stable == old(self)@.stable,
        no_unwind
    {
        let previous = self.debouncer.stable_state();
        match self.debouncer.update(raw, now) {
            Some(new_state) => {
                if !previous && new_state {
                    Some(Edge::Rising)
                } else {
                    Some(Edge::Falling)
                }
            },
            None => None,
        }
    }

    /// Returns the current stable (debounced) state.
    pub fn stable_state(&self) -> (r: bool)
        ensures
            r == self@.stable,
        no_unwind
    {
        self.debouncer.stable_state()
    }
}

/// Thin adapter for a debounced digital input pin.
///
/// Reads the pin level on every [`update`](DebouncedInput::update), feeds it
/// through an [`EdgeDetector`] and returns the edge, if any.
pub struct DebouncedInput<P> {
    pin: P,
    detector: EdgeDetector,
}

impl<P> View for DebouncedInput<P> {
    type V = DebouncerView;

    closed spec fn view(&self) -> DebouncerView {
        self.detector@
    }
}

impl<P: DigitalRead> DebouncedInput<P> {
    /// The wrapped pin.
    pub closed spec fn pin_spec(&self) -> P {
        self.pin
    }

    /// Creates a new adapter wrapping `pin` with the given initial logical
    /// level and debounce window (caller-defined ticks).
    ///
    /// `initial` must match the pin's actual level; otherwise the first
    /// [`update`](DebouncedInput::update) may observe an artificial
    /// transition. [`try_from_pin`](DebouncedInput::try_from_pin) seeds it
    /// from the live pin instead.
    pub fn new(pin: P, initial: bool, debounce: u64) -> (r: Self)
        ensures
            r@ == (DebouncerView { stable: initial, pending: None, debounce }),
            r.pin_spec() == pin,
    {
        Self { pin, detector: EdgeDetector::new(initial, debounce) }
    }

    /// The adapter step for one pin-read outcome: a level is fed to the edge
    /// detector; a read error is handed back and changes nothing.
    pub open spec fn read_step(
        s: DebouncerView,
        read: Result<bool, P::Error>,
        now: u64,
    ) -> (DebouncerView, Result<Option<Edge>, P::Error>) {
        match read {
            Ok(level) => {
                let (next, edge) = EdgeDetector::step(s, level, now);
                (next, Ok(edge))
            },
            Err(e) => (s, Err(e)),
        }
    }

    /// Whether `r` is the adapter built from `pin` and the outcome `read` of
    /// its initial read: a level seeds the stable state; a read error is
    /// handed back.
    pub open spec fn from_read_spec(
        pin: P,
        read: Result<bool, P::Error>,
        debounce: u64,
        r: Result<Self, P::Error>,
    ) -> bool {
        match read {
            Ok(level) => r matches Ok(input) && input@ == (DebouncerView {
                stable: level,
                pending: None,
                debounce,
            }) && input.pin_spec() == pin,
            Err(e) => r == Err::<Self, P::Error>(e),
        }
    }

    /// Builds an adapter from `pin` and the outcome of its initial read: a
    /// level seeds the stable state; a read error is handed back.
    pub fn from_read(pin: P, read: Result<bool, P::Error>, debounce: u64) -> (r: Result<Self, P::Error>)
        ensures
            Self::from_read_spec(pin, read, debounce, r),
    {
        match read {
            Ok(initial) => Ok(Self::new(pin, initial, debounce)),
            Err(e) => Err(e),
        }
    }

    /// Creates a new adapter, seeding the initial stable state from one read
    /// of the pin.
    ///
    /// # Errors
    ///
    /// Returns `Err(e)` if the initial pin read fails.
    pub fn try_from_pin(pin: P, debounce: u64) -> (r: Result<Self, P::Error>)
        ensures
            exists|read: Result<bool, P::Error>, read_pin: P| #[trigger] Self::from_read_spec(read_pin, read, debounce, r),
    {
        let mut pin = pin;
        let read = pin.read_level();
        let ghost read_pin = pin;
        let r = Self::from_read(pin, read, debounce);
        assert(Self::from_read_spec(read_pin, read, debounce, r));
        r
    }

    /// Feeds the outcome of one pin read through the edge detector: a level
    /// ticks it at `now`; a read error is handed back and the detector is
    /// left unchanged.
    pub fn apply_read(&mut self, read: Result<bool, P::Error>, now: u64) -> (r: Result<Option<Edge>, P::Error>)
        ensures
            (final(self)@, r) == Self::read_step(old(self)@, read, now),
            final(self).pin_spec() == old(self).pin_spec(),
    {
        match read {
            Ok(level) => Ok(self.detector.update(level, now)),
            Err(e) => Err(e),
        }
    }

    /// Reads the pin and ticks the internal [`EdgeDetector`].
    ///
    /// Returns `Ok(Some(edge))` on a confirmed transition, `Ok(None)` when
    /// quiet, or `Err(e)` if the pin read fails (the detector is then left
    /// unchanged).
    pub fn update(&mut self, now: u64) -> (r: Result<Option<Edge>, P::Error>)
        ensures
            exists|read: Result<bool, P::Error>| (final(self)@, r) == #[trigger] Self::read_step(old(self)@, read, now),
    {
        let ghost before = self@;
        let read = self.pin.read_level();
        let r = self.apply_read(read, now);
        assert((self@, r) == Self::read_step(before, read, now));
        r
    }

    /// Returns the current stable (debounced) state without reading the pin.
    pub fn stable_state(&self) -> (r: bool)
        ensures
            r == self@.stable,
        no_unwind
    {
        self.detector.stable_state()
    }

    /// Returns a shared reference to the underlying pin.
    pub fn pin(&self) -> (r: &P)
        ensures
            *r == self.pin_spec(),
    {
        &self.pin
    }

    /// Returns a mutable reference to the underlying pin.
    pub fn pin_mut(&mut self) -> (r: &mut P)
        ensures
            *r == old(self).pin_spec(),
            final(self).pin_spec() == *final(r),
            final(self)@ == old(self)@,
    {
        &mut self.pin
    }
}

} // verus!
