//! Analog input helpers for ADC-backed controls: [`AnalogRange`],
//! [`AnalogSample`], [`AnalogValue`], the [`AnalogRead`] trait, the
//! [`AnalogInput`] adapter and [`MockAnalogRead`].
//!
//! Callers feed raw samples; [`AnalogRange`] clamps and normalizes them to
//! `0..=ANALOG_FULL_SCALE`, and [`AnalogValue`] reports only movement of at
//! least a configured deadband.
use crate::range_map::clamp_spec;
use crate::scale::{lemma_rounded_scale_bounds, lemma_rounded_scale_monotone, rounded_scale};
use core::convert::Infallible;
use vstd::prelude::*;

verus! {

/// The maximum normalized analog value (`u16::MAX`).
pub const ANALOG_FULL_SCALE: u16 = 65535;

/// A raw ADC range used to normalize samples.
///
/// Samples below `min` normalize to `0`, samples above `max` to
/// [`ANALOG_FULL_SCALE`]. The range has at least one count of span.
#[derive(Debug, Clone, Copy, PartialEq, Eq, Structural, Hash)]
pub struct AnalogRange {
    min: u16,
    max: u16,
}

impl AnalogRange {
    #[verifier::type_invariant]
    spec fn inv(self) -> bool {
        self.min < self.max
    }

    /// The inclusive lower raw bound.
    pub closed spec fn min_spec(self) -> u16 {
        self.min
    }

    /// The inclusive upper raw bound.
    pub closed spec fn max_spec(self) -> u16 {
        self.max
    }

    /// The raw span (`max - min`).
    pub open spec fn span_spec(self) -> int {
        self.max_spec() - self.min_spec()
    }

    /// A raw sample clamped to the range.
    pub open spec fn clamp_spec(self, raw: u16) -> int {
        clamp_spec(raw as int, self.min_spec() as int, self.max_spec() as int)
    }

    /// A raw sample normalized to `0..=ANALOG_FULL_SCALE`, rounded to the
    /// nearest count.
    pub open spec fn normalize_spec(self, raw: u16) -> int {
        rounded_scale(self.clamp_spec(raw) - self.min_spec(), ANALOG_FULL_SCALE as int, self.span_spec())
    }

    /// Creates a new raw ADC range. Requires `max > min`.
    pub fn new(min: u16, max: u16) -> (r: Self)
        requires
            max > min,
        ensures
            r.min_spec() == min,
            r.max_spec() == max,
    {
        Self { min, max }
    }

    /// Creates a range `0..=max` for an unsigned ADC (for a 12-bit ADC pass
    /// `4095`). Requires `max > 0`.
    pub fn zero_to(max: u16) -> (r: Self)
        requires
            max > 0,
        ensures
            r.min_spec() == 0,
            r.max_spec() == max,
    {
        Self::new(0, max)
    }

    /// Returns the inclusive lower raw bound.
    pub fn min(self) -> (r: u16)
        ensures
            r == self.min_spec(),
    {
        self.min
    }

    /// Returns the inclusive upper raw bound.
    pub fn max(self) -> (r: u16)
        ensures
            r == self.max_spec(),
    {
        self.max
    }

    /// Returns the raw span (`max - min`).
    pub fn span(self) -> (r: u16)
        ensures
            r == self.span_spec(),
            r > 0,
    {
        proof {
            use_type_invariant(&self);
        }
        self.max - self.min
    }

    /// Clamps a raw sample to this range.
    pub fn clamp(self, raw: u16) -> (r: u16)
        ensures
            r == self.clamp_spec(raw),
            self.min_spec() <= r <= self.max_spec(),
    {
        proof {
            use_type_invariant(&self);
        }
        if raw < self.min {
            self.min
        } else if raw > self.max {
            self.max
        } else {
            raw
        }
    }

    /// Normalizes a raw sample to `0..=u16::MAX`, rounding to the nearest
    /// count: `min` (and below) maps to `0`, `max` (and above) to
    /// [`ANALOG_FULL_SCALE`].
    pub fn normalize(self, raw: u16) -> (r: u16)
        ensures
            r == self.normalize_spec(raw),
            raw <= self.min_spec() ==> r == 0,
            raw >= self.max_spec() ==> r == ANALOG_FULL_SCALE,
    {
        proof {
            use_type_invariant(&self);
        }
        let clamped = self.clamp(raw);
        let offset = (clamped - self.min) as u32;
        let span = self.span() as u32;
        proof {
            lemma_rounded_scale_bounds(offset as int, 65535, span as int);
            assert(offset * 65535 <= 65535 * 65535) by (nonlinear_arith)
                requires
                    offset <= 65535,
            ;
        }
        ((offset * 65535 + (span / 2)) / span) as u16
    }

    /// Converts a raw ADC delta to normalized units for this range: `0` maps
    /// to `0`, any delta of at least the span to [`ANALOG_FULL_SCALE`].
    pub fn raw_delta_to_normalized(self, raw_delta: u16) -> (r: u16)
        ensures
            r == (if raw_delta == 0 {
                0
            } else if raw_delta >= self.span_spec() {
                ANALOG_FULL_SCALE as int
            } else {
                rounded_scale(raw_delta as int, ANALOG_FULL_SCALE as int, self.span_spec())
            }),
    {
        proof {
            use_type_invariant(&self);
        }
        if raw_delta == 0 {
            return 0;
        }
        if raw_delta >= self.span() {
            return ANALOG_FULL_SCALE;
        }
        let delta = raw_delta as u32;
        let span = self.span() as u32;
        proof {
            lemma_rounded_scale_bounds(delta as int, 65535, span as int);
            assert(delta * 65535 <= 65535 * 65535) by (nonlinear_arith)
                requires
                    delta <= 65535,
            ;
        }
        ((delta * 65535 + (span / 2)) / span) as u16
    }
}

/// Normalization is monotone in the raw sample.
pub proof fn lemma_normalize_monotone(range: AnalogRange, a: u16, b: u16)
    requires
        range.min_spec() < range.max_spec(),
        a <= b,
    ensures
        range.normalize_spec(a) <= range.normalize_spec(b),
{
    lemma_rounded_scale_monotone(
        range.clamp_spec(a) - range.min_spec(),
        range.clamp_spec(b) - range.min_spec(),
        ANALOG_FULL_SCALE as int,
        range.span_spec(),
    );
}

/// A normalized analog reading with the clamped raw sample that produced it.
#[derive(Debug, Clone, Copy, PartialEq, Eq, Structural, Hash)]
pub struct AnalogSample {
    raw: u16,
    normalized: u16,
}

/// The rounded percentage (`0..=100`) of a normalized value.
pub open spec fn percent_spec(normalized: u16) -> int {
    rounded_scale(normalized as int, 100, ANALOG_FULL_SCALE as int)
}

impl AnalogSample {
    /// The clamped raw sample.
    pub closed spec fn raw_spec(self) -> u16 {
        self.raw
    }

    /// The normalized value.
    pub closed spec fn normalized_spec(self) -> u16 {
        self.normalized
    }

    /// Creates a sample from raw and normalized values.
    pub fn new(raw: u16, normalized: u16) -> (r: Self)
        ensures
            r.raw_spec() == raw,
            r.normalized_spec() == normalized,
    {
        Self { raw, normalized }
    }

    /// Returns the clamped raw ADC sample.
    pub fn raw(self) -> (r: u16)
        ensures
            r == self.raw_spec(),
    {
        self.raw
    }

    /// Returns the normalized value in `0..=u16::MAX`.
    pub fn normalized(self) -> (r: u16)
        ensures
            r == self.normalized_spec(),
    {
        self.normalized
    }

    /// Returns the integer percentage in `0..=100`, rounded to nearest.
    pub fn percent(self) -> (r: u8)
        ensures
            r == percent_spec(self.normalized_spec()),
            r <= 100,
    {
        let full = ANALOG_FULL_SCALE as u32;
        proof {
            lemma_rounded_scale_bounds(self.normalized as int, 100, 65535);
        }
        ((self.normalized as u32 * 100 + (full / 2)) / full) as u8
    }
}

impl Default for AnalogSample {
    fn default() -> (r: Self)
        ensures
            r.raw_spec() == 0,
            r.normalized_spec() == 0,
    {
        Self { raw: 0, normalized: 0 }
    }
}

/// The sample produced by a raw reading in `range`: the clamped raw value and
/// its normalization.
pub open spec fn sample_of(range: AnalogRange, raw: u16) -> (u16, u16) {
    (range.clamp_spec(raw) as u16, range.normalize_spec(raw) as u16)
}

/// Abstract state of an [`AnalogValue`].
pub struct AnalogValueView {
    /// The raw ADC range.
    pub range: AnalogRange,
    /// The normalized deadband.
    pub deadband: u16,
    /// The last emitted (stable) sample, as `(raw, normalized)`.
    pub stable: (u16, u16),
}

impl AnalogValueView {
    /// The movement of the `normalized` value from the stable one.
    pub open spec fn delta(self, normalized: u16) -> int {
        if normalized >= self.stable.1 {
            normalized - self.stable.1
        } else {
            self.stable.1 - normalized
        }
    }

    /// One tracker step: the state after a raw reading, and the emitted
    /// sample, if any. A sample is emitted when the normalized value moved by
    /// at least the deadband (and moved at all).
    pub open spec fn step(self, raw: u16) -> (AnalogValueView, Option<(u16, u16)>) {
        let s = sample_of(self.range, raw);
        if self.delta(s.1) >= self.deadband && s.1 != self.stable.1 {
            (AnalogValueView { stable: s, ..self }, Some(s))
        } else {
            (self, None)
        }
    }
}

/// Deadbanded movement is measured in both directions: a reading whose
/// normalized value differs from the stable one by at least the deadband,
/// upward or downward, is emitted and becomes the new stable value; a
/// reading closer than the deadband (or equal to the stable value) is not
/// emitted and changes nothing.
pub proof fn lemma_deadband_both_directions(v: AnalogValueView, raw: u16)
    ensures
        ({
            let s = sample_of(v.range, raw);
            let moved = s.1 != v.stable.1 && (s.1 >= v.stable.1 + v.deadband || s.1 + v.deadband
                <= v.stable.1);
            &&& moved ==> v.step(raw) == (AnalogValueView { stable: s, ..v }, Some(s))
            &&& !moved ==> v.step(raw) == (v, None::<(u16, u16)>)
        }),
{
}

/// The deadband in the large: movement strictly inside the deadband around
/// the stable value is suppressed and changes nothing; an emitted sample
/// becomes the new stable comparison point; and with a deadband of `0` every
/// change of the normalized value is emitted.
pub proof fn lemma_deadband(v: AnalogValueView, raw: u16)
    ensures
        v.delta(sample_of(v.range, raw).1) < v.deadband ==> v.step(raw) == (v, None::<(u16, u16)>),
        v.step(raw).1 matches Some(s) ==> s == sample_of(v.range, raw) && v.step(raw).0.stable == s
            && v.step(raw).0.range == v.range && v.step(raw).0.deadband == v.deadband,
        v.deadband == 0 ==> (v.step(raw).1 is Some <==> sample_of(v.range, raw).1 != v.stable.1),
{
}

/// Deadbanded analog value tracker.
///
/// Keeps the latest stable normalized value and emits a new [`AnalogSample`]
/// only when the normalized movement is at least `deadband` (normalized
/// units). A deadband of `0` emits any change.
#[derive(Debug, Clone, Copy)]
pub struct AnalogValue {
    range: AnalogRange,
    deadband: u16,
    stable: AnalogSample,
}

impl View for AnalogValue {
    type V = AnalogValueView;

    closed spec fn view(&self) -> AnalogValueView {
        AnalogValueView {
            range: self.range,
            deadband: self.deadband,
            stable: (self.stable.raw, self.stable.normalized),
        }
    }
}

impl AnalogValue {
    /// Creates a new tracker seeded from an initial raw ADC sample.
    pub fn new(initial_raw: u16, range: AnalogRange, deadband: u16) -> (r: Self)
        ensures
            r@ == (AnalogValueView { range, deadband, stable: sample_of(range, initial_raw) }),
    {
        let stable = Self::sample(range, initial_raw);
        Self { range, deadband, stable }
    }

    /// Feeds a raw ADC sample; returns the new sample when the normalized
    /// value moved by at least the deadband, `None` otherwise.
    pub fn update(&mut self, raw: u16) -> (r: Option<AnalogSample>)
        ensures
            (final(self)@, match r {
                Some(s) => Some((s.raw_spec(), s.normalized_spec())),
                None => None,
            }) == old(self)@.step(raw),
            r matches Some(s) ==> old(self)@.delta(s.normalized_spec()) >= old(self)@.deadband
                && (s.raw_spec(), s.normalized_spec()) == final(self)@.stable,
            r is None ==> final(self)@ == old(self)@,
    {
        let sample = Self::sample(self.range, raw);
        let delta = if sample.normalized >= self.stable.normalized {
            sample.normalized - self.stable.normalized
        } else {
            self.stable.normalized - sample.normalized
        };
        if delta >= self.deadband && sample.normalized != self.stable.normalized {
            self.stable = sample;
            Some(sample)
        } else {
            None
        }
    }

    /// Returns the current stable sample.
    pub fn stable_value(&self) -> (r: AnalogSample)
        ensures
            (r.raw_spec(), r.normalized_spec()) == self@.stable,
    {
        self.stable
    }

    /// Returns the configured raw ADC range.
    pub fn range(&self) -> (r: AnalogRange)
        ensures
            r == self@.range,
    {
        self.range
    }

    /// Returns the configured normalized deadband.
    pub fn deadband(&self) -> (r: u16)
        ensures
            r == self@.deadband,
    {
        self.deadband
    }

    fn sample(range: AnalogRange, raw: u16) -> (r: AnalogSample)
        ensures
            (r.raw, r.normalized) == sample_of(range, raw),
    {
        let clamped = range.clamp(raw);
        let normalized = range.normalize(clamped);
        proof {
            assert(range.clamp_spec(clamped) == range.clamp_spec(raw));
        }
        AnalogSample::new(clamped, normalized)
    }
}

/// Minimal trait for ADC-like raw analog readers.
///
/// Hardware crates implement it for their ADC wrappers; tests use
/// [`MockAnalogRead`].
pub trait AnalogRead {
    /// The read error type.
    type Error;

    /// Reads one raw ADC sample.
    fn read_raw(&mut self) -> Result<u16, Self::Error>;
}

/// Adapter that reads raw samples and feeds an [`AnalogValue`] tracker.
pub struct AnalogInput<R> {
    reader: R,
    value: AnalogValue,
}

impl<R> View for AnalogInput<R> {
    type V = AnalogValueView;

    closed spec fn view(&self) -> AnalogValueView {
        self.value@
    }
}

impl<R: AnalogRead> AnalogInput<R> {
    /// The wrapped reader.
    pub closed spec fn reader_spec(&self) -> R {
        self.reader
    }

    /// Creates a new analog input from an already-known initial raw sample.
    pub fn new(reader: R, initial_raw: u16, range: AnalogRange, deadband: u16) -> (r: Self)
        ensures
            r@ == (AnalogValueView { range, deadband, stable: sample_of(range, initial_raw) }),
            r.reader_spec() == reader,
    {
        Self { reader, value: AnalogValue::new(initial_raw, range, deadband) }
    }

    /// Whether `r` is the input built from `reader` and the outcome `read` of
    /// its initial read: a raw sample seeds the tracker; a read error is
    /// handed back.
    pub open spec fn from_read_spec(
        reader: R,
        read: Result<u16, R::Error>,
        range: AnalogRange,
        deadband: u16,
        r: Result<Self, R::Error>,
    ) -> bool {
        match read {
            Ok(raw) => r matches Ok(input) && input@ == (AnalogValueView {
                range,
                deadband,
                stable: sample_of(range, raw),
            }) && input.reader_spec() == reader,
            Err(e) => r == Err::<Self, R::Error>(e),
        }
    }

    /// The input step for one read outcome: a raw sample is fed to the
    /// tracker and the emitted sample, as `(raw, normalized)`, comes back; a
    /// read error is handed back and changes nothing.
    pub open spec fn read_step(
        s: AnalogValueView,
        read: Result<u16, R::Error>,
    ) -> (AnalogValueView, Result<Option<(u16, u16)>, R::Error>) {
        match read {
            Ok(raw) => {
                let (next, x) = s.step(raw);
                (next, Ok(x))
            },
            Err(e) => (s, Err(e)),
        }
    }

    /// An update result with the emitted sample taken as `(raw, normalized)`.
    pub open spec fn result_pairs(r: Result<Option<AnalogSample>, R::Error>) -> Result<Option<(u16, u16)>, R::Error> {
        match r {
            Ok(Some(s)) => Ok(Some((s.raw_spec(), s.normalized_spec()))),
            Ok(None) => Ok(None),
            Err(e) => Err(e),
        }
    }

    /// Builds an input from `reader` and the outcome of its initial read: a
    /// raw sample seeds the tracker; a read error is handed back.
    pub fn from_read(reader: R, read: Result<u16, R::Error>, range: AnalogRange, deadband: u16) -> (r: Result<Self, R::Error>)
        ensures
            Self::from_read_spec(reader, read, range, deadband, r),
    {
        match read {
            Ok(initial_raw) => Ok(Self::new(reader, initial_raw, range, deadband)),
            Err(e) => Err(e),
        }
    }

    /// Creates a new analog input, seeding the initial value from the reader.
    ///
    /// # Errors
    ///
    /// Returns `Err(e)` if the initial read fails.
    pub fn try_from_reader(reader: R, range: AnalogRange, deadband: u16) -> (r: Result<Self, R::Error>)
        ensures
            exists|read: Result<u16, R::Error>, read_reader: R| #[trigger] Self::from_read_spec(read_reader, read, range, deadband, r),
    {
        let mut reader = reader;
        let read = reader.read_raw();
        let ghost read_reader = reader;
        let r = Self::from_read(reader, read, range, deadband);
        assert(Self::from_read_spec(read_reader, read, range, deadband, r));
        r
    }

    /// Feeds the outcome of one read through the tracker: a raw sample
    /// updates it; a read error is handed back and the tracker is left
    /// unchanged.
    pub fn apply_read(&mut self, read: Result<u16, R::Error>) -> (r: Result<Option<AnalogSample>, R::Error>)
        ensures
            (final(self)@, Self::result_pairs(r)) == Self::read_step(old(self)@, read),
            final(self).reader_spec() == old(self).reader_spec(),
    {
        match read {
            Ok(raw) => Ok(self.value.update(raw)),
            Err(e) => Err(e),
        }
    }

    /// Reads one raw sample and updates the deadbanded value.
    ///
    /// # Errors
    ///
    /// Returns `Err(e)` if the raw read fails; the tracker is then left
    /// unchanged.
    pub fn update(&mut self) -> (r: Result<Option<AnalogSample>, R::Error>)
        ensures
            exists|read: Result<u16, R::Error>| (final(self)@, Self::result_pairs(r))
                == #[trigger] Self::read_step(old(self)@, read),
    {
        let ghost before = self@;
        let read = self.reader.read_raw();
        let r = self.apply_read(read);
        assert((self@, Self::result_pairs(r)) == Self::read_step(before, read));
        r
    }

    /// Returns the current stable sample.
    pub fn stable_value(&self) -> (r: AnalogSample)
        ensures
            (r.raw_spec(), r.normalized_spec()) == self@.stable,
    {
        self.value.stable_value()
    }

    /// Returns a shared reference to the wrapped reader.
    pub fn reader(&self) -> (r: &R)
        ensures
            *r == self.reader_spec(),
    {
        &self.reader
    }

    /// Returns a mutable reference to the wrapped reader.
    pub fn reader_mut(&mut self) -> (r: &mut R)
        ensures
            *r == old(self).reader_spec(),
            final(self).reader_spec() == *final(r),
            final(self)@ == old(self)@,
    {
        &mut self.reader
    }

    /// Releases the wrapped reader and value tracker.
    pub fn into_parts(self) -> (r: (R, AnalogValue))
        ensures
            r.0 == self.reader_spec(),
            r.1@ == self@,
    {
        (self.reader, self.value)
    }
}

/// Settable mock analog reader for host tests.
#[derive(Debug, Clone, Copy, PartialEq, Eq, Structural)]
pub struct MockAnalogRead {
    raw: u16,
}

impl MockAnalogRead {
    /// The raw sample returned by reads.
    pub closed spec fn raw_spec(self) -> u16 {
        self.raw
    }

    /// Creates a mock reader with the given raw sample.
    pub fn new(raw: u16) -> (r: Self)
        ensures
            r.raw_spec() == raw,
    {
        Self { raw }
    }

    /// Sets the raw sample returned by future reads.
    pub fn set_raw(&mut self, raw: u16)
        ensures
            final(self).raw_spec() == raw,
    {
        self.raw = raw;
    }

    /// Returns the currently configured raw sample.
    pub fn raw(self) -> (r: u16)
        ensures
            r == self.raw_spec(),
    {
        self.raw
    }
}

impl Default for MockAnalogRead {
    fn default() -> (r: Self)
        ensures
            r.raw_spec() == 0,
    {
        Self { raw: 0 }
    }
}

impl AnalogRead for MockAnalogRead {
    type Error = Infallible;

    fn read_raw(&mut self) -> (r: Result<u16, Infallible>)
        ensures
            r == Ok::<u16, Infallible>(old(self).raw_spec()),
            *final(self) == *old(self),
    {
        Ok(self.raw)
    }
}

} // verus!
