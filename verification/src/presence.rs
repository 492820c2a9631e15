//! Semantic presence detection for digital sensors: [`Presence`],
//! [`Polarity`], [`DigitalPresence`] and the [`DigitalPresenceInput`] pin
//! adapter.
//!
//! A raw GPIO level often means "object present" or "object absent". This
//! module names that domain directly and composes it with a
//! [`Debouncer`](crate::debounce::Debouncer). A `debounce` of `0` means no
//! debouncing: the first changed sample transitions immediately.
use crate::debounce::{Debouncer, DebouncerView};
use crate::digital::DigitalRead;
use vstd::prelude::*;

verus! {

/// Whether a physical object is present or absent. The default is
/// [`Absent`](Presence::Absent).
#[derive(Debug, Clone, Copy, PartialEq, Eq, Structural, Hash)]
pub enum Presence {
    /// The physical object is detected.
    Present,
    /// The physical object is not detected.
    Absent,
}

/// The presence named by a boolean: `true` is present.
pub open spec fn presence_of(present: bool) -> Presence {
    if present {
        Presence::Present
    } else {
        Presence::Absent
    }
}

/// The opposite presence state.
pub open spec fn negated(p: Presence) -> Presence {
    match p {
        Presence::Present => Presence::Absent,
        Presence::Absent => Presence::Present,
    }
}

impl Presence {
    /// Returns `true` if the state is [`Present`](Presence::Present).
    pub fn is_present(self) -> (r: bool)
        ensures
            r == (self == Presence::Present),
    {
        match self {
            Presence::Present => true,
            Presence::Absent => false,
        }
    }

    /// Returns `true` if the state is [`Absent`](Presence::Absent).
    pub fn is_absent(self) -> (r: bool)
        ensures
            r == (self == Presence::Absent),
    {
        match self {
            Presence::Present => false,
            Presence::Absent => true,
        }
    }
}

impl Default for Presence {
    fn default() -> (r: Self)
        ensures
            r == Presence::Absent,
    {
        Presence::Absent
    }
}

impl From<bool> for Presence {
    /// Maps `true` to [`Present`](Presence::Present) and `false` to
    /// [`Absent`](Presence::Absent).
    fn from(value: bool) -> (r: Self) {
        if value {
            Presence::Present
        } else {
            Presence::Absent
        }
    }
}

impl vstd::std_specs::convert::FromSpecImpl<bool> for Presence {
    open spec fn obeys_from_spec() -> bool {
        true
    }

    open spec fn from_spec(v: bool) -> Presence {
        presence_of(v)
    }
}

impl From<Presence> for bool {
    /// Maps [`Present`](Presence::Present) to `true` and
    /// [`Absent`](Presence::Absent) to `false`.
    fn from(state: Presence) -> (r: bool) {
        state.is_present()
    }
}

impl vstd::std_specs::convert::FromSpecImpl<Presence> for bool {
    open spec fn obeys_from_spec() -> bool {
        true
    }

    open spec fn from_spec(v: Presence) -> bool {
        v == Presence::Present
    }
}

impl core::ops::Not for Presence {
    type Output = Presence;

    fn not(self) -> (r: Presence) {
        match self {
            Presence::Present => Presence::Absent,
            Presence::Absent => Presence::Present,
        }
    }
}

impl vstd::std_specs::ops::NotSpecImpl for Presence {
    open spec fn obeys_not_spec() -> bool {
        true
    }

    open spec fn not_req(self) -> bool {
        true
    }

    open spec fn not_spec(self) -> Presence {
        negated(self)
    }
}

/// Presence and `bool` convert both ways without loss, negation is an
/// involution, and the two polarities read every raw level oppositely.
pub proof fn lemma_presence_conversions(p: Presence, b: bool)
    ensures
        (presence_of(b) == Presence::Present) == b,
        presence_of(p == Presence::Present) == p,
        negated(negated(p)) == p,
        negated(p) != p,
        Polarity::ActiveHigh.present_spec(b) != Polarity::ActiveLow.present_spec(b),
{
}

/// How a raw boolean GPIO level maps to physical presence.
#[derive(Debug, Clone, Copy, PartialEq, Eq, Structural, Hash)]
pub enum Polarity {
    /// `true` (high) means present.
    ActiveHigh,
    /// `false` (low) means present.
    ActiveLow,
}

impl Polarity {
    /// Whether a raw level means present under this polarity.
    pub open spec fn present_spec(self, raw: bool) -> bool {
        match self {
            Polarity::ActiveHigh => raw,
            Polarity::ActiveLow => !raw,
        }
    }

    /// Maps a raw boolean reading to a [`Presence`] state.
    pub fn map(self, raw: bool) -> (r: Presence)
        ensures
            r == presence_of(self.present_spec(raw)),
    {
        let present = match self {
            Polarity::ActiveHigh => raw,
            Polarity::ActiveLow => !raw,
        };
        if present {
            Presence::Present
        } else {
            Presence::Absent
        }
    }
}

/// Polarity-aware debounced presence detector for digital sensors (reed
/// switches, beam breaks, PIR modules, digital Hall switches and similar).
///
/// Raw levels are mapped through the [`Polarity`] and debounced; the
/// debounced state is "present" as a boolean.
#[derive(Debug, Clone, Copy)]
pub struct DigitalPresence {
    polarity: Polarity,
    debouncer: Debouncer,
}

impl View for DigitalPresence {
    type V = DebouncerView;

    /// The underlying debouncer over the "present" boolean.
    closed spec fn view(&self) -> DebouncerView {
        self.debouncer@
    }
}

impl DigitalPresence {
    /// The configured polarity.
    pub closed spec fn polarity_spec(&self) -> Polarity {
        self.polarity
    }

    /// The abstract step of a detector with polarity `polarity`: the raw level
    /// is mapped to "present" and debounced; a confirmed transition is
    /// reported as a [`Presence`].
    pub open spec fn step(polarity: Polarity, s: DebouncerView, raw: bool, now: u64) -> (DebouncerView, Option<Presence>) {
        let (next, t) = s.step(polarity.present_spec(raw), now);
        (next, match t {
            Some(v) => Some(presence_of(v)),
            None => None,
        })
    }

    /// Creates a new detector from an initial raw GPIO level, mapped through
    /// `polarity` to seed the debounced state.
    pub fn new(initial_raw: bool, polarity: Polarity, debounce: u64) -> (r: Self)
        ensures
            r@ == (DebouncerView { stable: polarity.present_spec(initial_raw), pending: None, debounce }),
            r.polarity_spec() == polarity,
    {
        let initial_presence = polarity.map(initial_raw);
        Self::from_presence(initial_presence, polarity, debounce)
    }

    /// Creates a new detector from an already-semantic initial state.
    /// `polarity` is still used for future raw readings.
    pub fn from_presence(initial: Presence, polarity: Polarity, debounce: u64) -> (r: Self)
        ensures
            r@ == (DebouncerView { stable: initial == Presence::Present, pending: None, debounce }),
            r.polarity_spec() == polarity,
    {
        Self { polarity, debouncer: Debouncer::new(initial.is_present(), debounce) }
    }

    /// Feeds a raw GPIO reading at the given timestamp.
    ///
    /// Returns the new presence when a debounced transition is confirmed,
    /// `None` otherwise.
    pub fn update(&mut self, raw: bool, now: u64) -> (r: Option<Presence>)
        ensures
            (final(self)@, r) == Self::step(old(self).polarity_spec(), old(self)@, raw, now),
            final(self).polarity_spec() == old(self).polarity_spec(),
            r matches Some(p) ==> p == presence_of(final(self)@.stable) && final(self)@.stable != old(self)@.stable,
            r is None ==> final(self)@.stable == old(self)@.stable,
    {
        let mapped = self.polarity.map(raw);
        match self.debouncer.update(mapped.is_present(), now) {
            Some(v) => Some(Presence::from(v)),
            None => None,
        }
    }

    /// Returns the current stable debounced presence state.
    pub fn stable_state(&self) -> (r: Presence)
        ensures
            r == presence_of(self@.stable),
    {
        Presence::from(self.debouncer.stable_state())
    }

    /// Returns the configured raw-level polarity.
    pub fn polarity(&self) -> (r: Polarity)
        ensures
            r == self.polarity_spec(),
    {
        self.polarity
    }
}

/// Thin adapter for a digital presence input pin: reads the pin on every
/// [`update`](DigitalPresenceInput::update) and feeds the level through a
/// [`DigitalPresence`].
pub struct DigitalPresenceInput<P> {
    pin: P,
    detector: DigitalPresence,
}

impl<P> View for DigitalPresenceInput<P> {
    type V = DebouncerView;

    closed spec fn view(&self) -> DebouncerView {
        self.detector@
    }
}

impl<P: DigitalRead> DigitalPresenceInput<P> {
    /// The wrapped pin.
    pub closed spec fn pin_spec(&self) -> P {
        self.pin
    }

    /// The configured polarity.
    pub closed spec fn polarity_spec(&self) -> Polarity {
        self.detector.polarity_spec()
    }

    /// Creates a new adapter. `initial_raw` must match the pin's actual
    /// level; otherwise the first update may observe an artificial
    /// transition.
    pub fn new(pin: P, initial_raw: bool, polarity: Polarity, debounce: u64) -> (r: Self)
        ensures
            r@ == (DebouncerView { stable: polarity.present_spec(initial_raw), pending: None, debounce }),
            r.polarity_spec() == polarity,
            r.pin_spec() == pin,
    {
        Self { pin, detector: DigitalPresence::new(initial_raw, polarity, debounce) }
    }

    /// Whether `r` is the adapter built from `pin` and the outcome `read` of
    /// its initial read: a raw level seeds the stable state through
    /// `polarity`; a read error is handed back.
    pub open spec fn from_read_spec(
        pin: P,
        read: Result<bool, P::Error>,
        polarity: Polarity,
        debounce: u64,
        r: Result<Self, P::Error>,
    ) -> bool {
        match read {
            Ok(level) => r matches Ok(input) && input@ == (DebouncerView {
                stable: polarity.present_spec(level),
                pending: None,
                debounce,
            }) && input.polarity_spec() == polarity && input.pin_spec() == pin,
            Err(e) => r == Err::<Self, P::Error>(e),
        }
    }

    /// The adapter step for one pin-read outcome: a raw level is fed to the
    /// detector; a read error is handed back and changes nothing.
    pub open spec fn read_step(
        polarity: Polarity,
        s: DebouncerView,
        read: Result<bool, P::Error>,
        now: u64,
    ) -> (DebouncerView, Result<Option<Presence>, P::Error>) {
        match read {
            Ok(level) => {
                let (next, p) = DigitalPresence::step(polarity, s, level, now);
                (next, Ok(p))
            },
            Err(e) => (s, Err(e)),
        }
    }

    /// Builds an adapter from `pin` and the outcome of its initial read: a
    /// raw level seeds the stable state; a read error is handed back.
    pub fn from_read(pin: P, read: Result<bool, P::Error>, polarity: Polarity, debounce: u64) -> (r: Result<Self, P::Error>)
        ensures
            Self::from_read_spec(pin, read, polarity, debounce, r),
    {
        match read {
            Ok(initial_raw) => Ok(Self::new(pin, initial_raw, polarity, debounce)),
            Err(e) => Err(e),
        }
    }

    /// Creates a new adapter, seeding the initial raw level from one read of
    /// the pin.
    ///
    /// # Errors
    ///
    /// Returns `Err(e)` if the initial pin read fails.
    pub fn try_from_pin(pin: P, polarity: Polarity, debounce: u64) -> (r: Result<Self, P::Error>)
        ensures
            exists|read: Result<bool, P::Error>, read_pin: P| #[trigger] Self::from_read_spec(read_pin, read, polarity, debounce, r),
    {
        let mut pin = pin;
        let read = pin.read_level();
        let ghost read_pin = pin;
        let r = Self::from_read(pin, read, polarity, debounce);
        assert(Self::from_read_spec(read_pin, read, polarity, debounce, r));
        r
    }

    /// Feeds the outcome of one pin read through the detector: a raw level
    /// ticks it at `now`; a read error is handed back and the detector is
    /// left unchanged.
    pub fn apply_read(&mut self, read: Result<bool, P::Error>, now: u64) -> (r: Result<Option<Presence>, P::Error>)
        ensures
            (final(self)@, r) == Self::read_step(old(self).polarity_spec(), old(self)@, read, now),
            final(self).polarity_spec() == old(self).polarity_spec(),
            final(self).pin_spec() == old(self).pin_spec(),
    {
        match read {
            Ok(level) => Ok(self.detector.update(level, now)),
            Err(e) => Err(e),
        }
    }

    /// Reads the pin and ticks the internal [`DigitalPresence`].
    ///
    /// # Errors
    ///
    /// Returns `Err(e)` if the pin read fails; the detector is then left
    /// unchanged.
    pub fn update(&mut self, now: u64) -> (r: Result<Option<Presence>, P::Error>)
        ensures
            final(self).polarity_spec() == old(self).polarity_spec(),
            exists|read: Result<bool, P::Error>| (final(self)@, r)
                == #[trigger] Self::read_step(old(self).polarity_spec(), old(self)@, read, now),
    {
        let ghost before = self@;
        let ghost polarity = self.polarity_spec();
        let read = self.pin.read_level();
        let r = self.apply_read(read, now);
        assert((self@, r) == Self::read_step(polarity, before, read, now));
        r
    }

    /// Returns the current stable presence state without reading the pin.
    pub fn stable_state(&self) -> (r: Presence)
        ensures
            r == presence_of(self@.stable),
    {
        self.detector.stable_state()
    }

    /// Returns the configured raw-level polarity.
    pub fn polarity(&self) -> (r: Polarity)
        ensures
            r == self.polarity_spec(),
    {
        self.detector.polarity()
    }

    /// Returns a shared reference to the underlying pin.
    pub fn pin(&self) -> (r: &P)
        ensures
            *r == self.pin_spec(),
    {
        &self.pin
    }

    /// Returns a mutable reference to the underlying pin.
    pub fn pin_mut(&mut self) -> (r: &mut P)
        ensures
            *r == old(self).pin_spec(),
            final(self).pin_spec() == *final(r),
            final(self)@ == old(self)@,
            final(self).polarity_spec() == old(self).polarity_spec(),
    {
        &mut self.pin
    }
}

} // verus!
