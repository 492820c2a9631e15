//! Button-event detection: [`ButtonDecoder`], [`ButtonEvent`] and the
//! [`ButtonInput`] pin adapter.
//!
//! Turns a (possibly bouncing) momentary-button signal into a stream of
//! semantic events: the raw [`Press`](ButtonEvent::Press) /
//! [`Release`](ButtonEvent::Release) edges plus the
//! [`Click`](ButtonEvent::Click), [`DoubleClick`](ButtonEvent::DoubleClick)
//! and [`LongPress`](ButtonEvent::LongPress) gestures.
//!
//! The caller owns the clock; elapsed time saturates at zero. The raw
//! `pressed` signal is debounced by an internal
//! [`EdgeDetector`](crate::debounce::EdgeDetector), and gesture timing is
//! measured from the debounced edges.
//!
//! At most one event is emitted per [`update`](ButtonDecoder::update):
//!
//! | Gesture | Events, in order |
//! |---|---|
//! | Short tap | `Press`, `Release`, `Click` |
//! | Double tap (second release strictly within the window) | `Press`, `Release`, `Click`, `Press`, `Release`, `DoubleClick` |
//! | Long press | `Press`, `LongPress`, `Release` |
use crate::debounce::{elapsed, elapsed_ticks, DebouncerView, Edge, EdgeDetector};
use crate::digital::DigitalRead;
use vstd::prelude::*;

verus! {

/// A semantic button event emitted by [`ButtonDecoder::update`].
#[derive(Debug, Clone, Copy, PartialEq, Eq, Structural, Hash)]
pub enum ButtonEvent {
    /// The button was pressed (debounced press edge). Fires on every press.
    Press,
    /// The button was released (debounced release edge). Fires on every lift.
    Release,
    /// A short tap completed; emitted the call after its `Release`.
    Click,
    /// A second tap whose release fell strictly within the double-click
    /// window of the previous click; emitted the call after its `Release`.
    DoubleClick,
    /// The button was held for at least the long-press threshold. Fired once,
    /// and suppresses the `Click` the lift would otherwise produce.
    LongPress,
}

/// Abstract state of a [`ButtonDecoder`].
pub struct ButtonView {
    /// The debounced press/release signal.
    pub edges: DebouncerView,
    /// Long-press threshold in ticks.
    pub long_press: u64,
    /// Double-click window in ticks.
    pub double_click: u64,
    /// Tick of the most recent confirmed press edge.
    pub pressed_since: u64,
    /// Release tick of the previous click, if one can still pair into a
    /// double click.
    pub last_click: Option<u64>,
    /// Whether the current (or last) hold has already produced a long press.
    pub long_press_fired: bool,
    /// The event queued for the next call.
    pub pending: Option<ButtonEvent>,
}

impl ButtonView {
    /// The state of a freshly constructed decoder.
    pub open spec fn initial(initial_pressed: bool, debounce: u64, long_press: u64, double_click: u64) -> ButtonView {
        ButtonView {
            edges: DebouncerView { stable: initial_pressed, pending: None, debounce },
            long_press,
            double_click,
            pressed_since: 0,
            last_click: None,
            long_press_fired: initial_pressed,
            pending: None,
        }
    }

    /// Reachable states: an event is queued only after a release edge, and it
    /// is a `Release`, `Click` or `DoubleClick`.
    pub open spec fn wf(self) -> bool {
        &&& self.edges.wf()
        &&& self.pending is Some ==> !self.edges.stable
        &&& self.pending != Some(ButtonEvent::Press)
        &&& self.pending != Some(ButtonEvent::LongPress)
    }

    /// A `Release` is owed: the button is held, or its release is queued.
    pub open spec fn release_owed(self) -> bool {
        self.edges.stable || self.pending == Some(ButtonEvent::Release)
    }

    /// Whether a hold that started at `pressed_since` has reached the
    /// long-press threshold at `now`.
    pub open spec fn long_press_due(self, now: u64) -> bool {
        elapsed(now, self.pressed_since) >= self.long_press
    }

    /// The reaction to a confirmed release edge at `now`.
    pub open spec fn on_release(self, now: u64) -> (ButtonView, ButtonEvent) {
        if !self.long_press_fired && self.long_press_due(now) {
            (ButtonView {
                long_press_fired: true,
                last_click: None,
                pending: Some(ButtonEvent::Release),
                ..self
            }, ButtonEvent::LongPress)
        } else if self.long_press_fired {
            (ButtonView { last_click: None, ..self }, ButtonEvent::Release)
        } else if self.last_click matches Some(t0) && elapsed(now, t0) < self.double_click {
            (ButtonView {
                last_click: None,
                pending: Some(ButtonEvent::DoubleClick),
                ..self
            }, ButtonEvent::Release)
        } else {
            (ButtonView {
                last_click: Some(now),
                pending: Some(ButtonEvent::Click),
                ..self
            }, ButtonEvent::Release)
        }
    }

    /// One decoder step: the state after feeding `pressed` at `now`, and the
    /// emitted event, if any.
    pub open spec fn step(self, pressed: bool, now: u64) -> (ButtonView, Option<ButtonEvent>) {
        if self.pending is Some {
            (ButtonView { pending: None, ..self }, self.pending)
        } else {
            let (edges, edge) = EdgeDetector::step(self.edges, pressed, now);
            match edge {
                Some(Edge::Rising) => (ButtonView {
                    edges,
                    pressed_since: now,
                    long_press_fired: false,
                    ..self
                }, Some(ButtonEvent::Press)),
                Some(Edge::Falling) => {
                    let (next, e) = (ButtonView { edges, ..self }).on_release(now);
                    (next, Some(e))
                },
                None => if edges.stable && !self.long_press_fired && self.long_press_due(now) {
                    (ButtonView { edges, long_press_fired: true, ..self }, Some(ButtonEvent::LongPress))
                } else {
                    (ButtonView { edges, ..self }, None)
                },
            }
        }
    }
}

/// Pure button-event decoder.
///
/// Feed a `pressed` sample plus the current time to
/// [`update`](ButtonDecoder::update); the signal is debounced and turned into
/// [`ButtonEvent`]s.
#[derive(Debug, Clone, Copy)]
pub struct ButtonDecoder {
    edges: EdgeDetector,
    long_press: u64,
    double_click: u64,
    pressed_since: u64,
    last_click: Option<u64>,
    long_press_fired: bool,
    pending: Option<ButtonEvent>,
}

impl View for ButtonDecoder {
    type V = ButtonView;

    closed spec fn view(&self) -> ButtonView {
        ButtonView {
            edges: self.edges@,
            long_press: self.long_press,
            double_click: self.double_click,
            pressed_since: self.pressed_since,
            last_click: self.last_click,
            long_press_fired: self.long_press_fired,
            pending: self.pending,
        }
    }
}

impl ButtonDecoder {
    #[verifier::type_invariant]
    spec fn inv(self) -> bool {
        self@.wf()
    }

    /// Creates a new decoder.
    ///
    /// - `initial_pressed`: the logical state at construction. A decoder
    ///   built already pressed treats that hold as consumed: no `LongPress`
    ///   fires until the next genuine press, and the first lift is a bare
    ///   `Release`.
    /// - `debounce`: debounce window in ticks (`0` = no debouncing).
    /// - `long_press`: minimum continuous hold for `LongPress` (`0` makes every
    ///   press an immediate long press).
    /// - `double_click`: the second release must fall strictly within this
    ///   many ticks of the first click to be a `DoubleClick` (`0` disables
    ///   double-click detection).
    pub fn new(initial_pressed: bool, debounce: u64, long_press: u64, double_click: u64) -> (r: Self)
        ensures
            r@ == ButtonView::initial(initial_pressed, debounce, long_press, double_click),
    {
        Self {
            edges: EdgeDetector::new(initial_pressed, debounce),
            long_press,
            double_click,
            pressed_since: 0,
            last_click: None,
            long_press_fired: initial_pressed,
            pending: None,
        }
    }

    /// Feeds a raw `pressed` sample at time `now` and returns at most one
    /// [`ButtonEvent`].
    pub fn update(&mut self, pressed: bool, now: u64) -> (r: Option<ButtonEvent>)
        ensures
            (final(self)@, r) == old(self)@.step(pressed, now),
            old(self)@.wf(),
            final(self)@.wf(),
            // Press and Release alternate: every Press is followed by exactly
            // one Release before the next Press.
            r == Some(ButtonEvent::Press) ==> !old(self)@.release_owed() && final(self)@.release_owed(),
            r == Some(ButtonEvent::Release) ==> old(self)@.release_owed() && !final(self)@.release_owed(),
            r != Some(ButtonEvent::Press) && r != Some(ButtonEvent::Release)
                ==> final(self)@.release_owed() == old(self)@.release_owed(),
            // Click and DoubleClick are only ever delivered from the queue, and
            // are only queued by a call that returns Release.
            (r == Some(ButtonEvent::Click) || r == Some(ButtonEvent::DoubleClick)) ==> old(self)@.pending == r,
            (final(self)@.pending == Some(ButtonEvent::Click) || final(self)@.pending == Some(ButtonEvent::DoubleClick))
                ==> r == Some(ButtonEvent::Release),
            // A long press fires once per press and suppresses the click.
            r == Some(ButtonEvent::LongPress) ==> !old(self)@.long_press_fired && final(self)@.long_press_fired,
            old(self)@.long_press_fired && !final(self)@.long_press_fired ==> r == Some(ButtonEvent::Press),
            (final(self)@.pending == Some(ButtonEvent::Click) || final(self)@.pending == Some(ButtonEvent::DoubleClick))
                ==> !old(self)@.long_press_fired,
            // A double click needs a previous click strictly within the window.
            final(self)@.pending == Some(ButtonEvent::DoubleClick) && old(self)@.pending is None ==>
                (old(self)@.last_click matches Some(t0) && elapsed(now, t0) < old(self)@.double_click),
            // The debounced level only changes with a Press or Release edge.
            final(self)@.edges.stable != old(self)@.edges.stable ==>
                r == Some(ButtonEvent::Press) || r == Some(ButtonEvent::Release) || r == Some(ButtonEvent::LongPress),
    {
        proof {
            use_type_invariant(&*self);
        }
        if let Some(event) = self.pending {
            self.pending = None;
            return Some(event);
        }
        if let Some(edge) = self.edges.update(pressed, now) {
            return Some(self.on_edge(edge, now));
        }
        if self.edges.stable_state() && !self.long_press_fired
            && elapsed_ticks(now, self.pressed_since) >= self.long_press {
            self.long_press_fired = true;
            return Some(ButtonEvent::LongPress);
        }
        None
    }

    fn on_edge(&mut self, edge: Edge, now: u64) -> (r: ButtonEvent)
        requires
            old(self).pending is None,
            edge == Edge::Rising ==> old(self)@.edges.stable,
            edge == Edge::Falling ==> !old(self)@.edges.stable,
        ensures
            edge == Edge::Rising ==> (final(self)@, r) == (ButtonView {
                pressed_since: now,
                long_press_fired: false,
                ..old(self)@
            }, ButtonEvent::Press),
            edge == Edge::Falling ==> (final(self)@, r) == old(self)@.on_release(now),
    {
        proof {
            use_type_invariant(&*self);
        }
        match edge {
            Edge::Rising => {
                self.pressed_since = now;
                self.long_press_fired = false;
                ButtonEvent::Press
            },
            Edge::Falling => {
                if !self.long_press_fired && elapsed_ticks(now, self.pressed_since) >= self.long_press {
                    self.long_press_fired = true;
                    self.last_click = None;
                    self.pending = Some(ButtonEvent::Release);
                    return ButtonEvent::LongPress;
                }
                if self.long_press_fired {
                    self.last_click = None;
                    return ButtonEvent::Release;
                }
                let is_double = match self.last_click {
                    Some(t0) => elapsed_ticks(now, t0) < self.double_click,
                    None => false,
                };
                if is_double {
                    self.last_click = None;
                    self.pending = Some(ButtonEvent::DoubleClick);
                } else {
                    self.last_click = Some(now);
                    self.pending = Some(ButtonEvent::Click);
                }
                ButtonEvent::Release
            },
        }
    }

    /// Returns the current debounced (stable) pressed state.
    pub fn is_pressed(&self) -> (r: bool)
        ensures
            r == self@.edges.stable,
    {
        self.edges.stable_state()
    }
}

/// Thin adapter that drives a [`ButtonDecoder`] from a digital input pin.
///
/// Reads the pin on every [`update`](ButtonInput::update), converts the level
/// to a logical `pressed` value according to the polarity, and ticks the
/// decoder.
pub struct ButtonInput<P> {
    pin: P,
    active_low: bool,
    decoder: ButtonDecoder,
}

/// The logical pressed state of a pin level: an active-low button is pressed
/// when the pin is low, an active-high button when it is high.
pub open spec fn level_to_pressed_spec(active_low: bool, level: bool) -> bool {
    active_low != level
}

fn level_to_pressed(active_low: bool, level: bool) -> (r: bool)
    ensures
        r == level_to_pressed_spec(active_low, level),
{
    active_low != level
}

impl<P> View for ButtonInput<P> {
    type V = ButtonView;

    closed spec fn view(&self) -> ButtonView {
        self.decoder@
    }
}

impl<P: DigitalRead> ButtonInput<P> {
    /// The wrapped pin.
    pub closed spec fn pin_spec(&self) -> P {
        self.pin
    }

    /// Whether the button is wired active-low.
    pub closed spec fn active_low_spec(&self) -> bool {
        self.active_low
    }

    /// Creates a new adapter.
    ///
    /// - `active_low`: `true` if the button pulls the pin low when pressed.
    /// - `initial_pressed`: logical pressed state at construction;
    ///   [`try_from_pin`](ButtonInput::try_from_pin) seeds it from the pin.
    /// - `debounce` / `long_press` / `double_click`: see [`ButtonDecoder::new`].
    pub fn new(
        pin: P,
        active_low: bool,
        initial_pressed: bool,
        debounce: u64,
        long_press: u64,
        double_click: u64,
    ) -> (r: Self)
        ensures
            r@ == ButtonView::initial(initial_pressed, debounce, long_press, double_click),
            r.pin_spec() == pin,
            r.active_low_spec() == active_low,
    {
        let decoder = ButtonDecoder::new(initial_pressed, debounce, long_press, double_click);
        Self { pin, active_low, decoder }
    }

    /// Whether `r` is the adapter built from `pin` and the outcome `read` of
    /// its initial read: a level seeds the pressed state (through
    /// `active_low`); a read error is handed back.
    pub open spec fn from_read_spec(
        pin: P,
        active_low: bool,
        read: Result<bool, P::Error>,
        debounce: u64,
        long_press: u64,
        double_click: u64,
        r: Result<Self, P::Error>,
    ) -> bool {
        match read {
            Ok(level) => r matches Ok(input) && input@ == ButtonView::initial(
                level_to_pressed_spec(active_low, level),
                debounce,
                long_press,
                double_click,
            ) && input.pin_spec() == pin && input.active_low_spec() == active_low,
            Err(e) => r == Err::<Self, P::Error>(e),
        }
    }

    /// The adapter step for one pin-read outcome: a level is mapped to the
    /// pressed state and fed to the decoder; a read error is handed back and
    /// changes nothing.
    pub open spec fn read_step(
        active_low: bool,
        s: ButtonView,
        read: Result<bool, P::Error>,
        now: u64,
    ) -> (ButtonView, Result<Option<ButtonEvent>, P::Error>) {
        match read {
            Ok(level) => {
                let (next, e) = s.step(level_to_pressed_spec(active_low, level), now);
                (next, Ok(e))
            },
            Err(e) => (s, Err(e)),
        }
    }

    /// Builds an adapter from `pin` and the outcome of its initial read: a
    /// level seeds the pressed state; a read error is handed back.
    pub fn from_read(
        pin: P,
        active_low: bool,
        read: Result<bool, P::Error>,
        debounce: u64,
        long_press: u64,
        double_click: u64,
    ) -> (r: Result<Self, P::Error>)
        ensures
            Self::from_read_spec(pin, active_low, read, debounce, long_press, double_click, r),
    {
        match read {
            Ok(level) => {
                let pressed = level_to_pressed(active_low, level);
                Ok(Self::new(pin, active_low, pressed, debounce, long_press, double_click))
            },
            Err(e) => Err(e),
        }
    }

    /// Creates a new adapter, seeding the pressed state from one pin read.
    ///
    /// # Errors
    ///
    /// Returns `Err(e)` if the initial pin read fails.
    pub fn try_from_pin(
        pin: P,
        active_low: bool,
        debounce: u64,
        long_press: u64,
        double_click: u64,
    ) -> (r: Result<Self, P::Error>)
        ensures
            exists|read: Result<bool, P::Error>, read_pin: P| #[trigger] Self::from_read_spec(
                read_pin,
                active_low,
                read,
                debounce,
                long_press,
                double_click,
                r,
            ),
    {
        let mut pin = pin;
        let read = pin.read_level();
        let ghost read_pin = pin;
        let r = Self::from_read(pin, active_low, read, debounce, long_press, double_click);
        assert(Self::from_read_spec(read_pin, active_low, read, debounce, long_press, double_click, r));
        r
    }

    /// Feeds the outcome of one pin read through the decoder: a level ticks
    /// it at `now`; a read error is handed back and the decoder is left
    /// unchanged.
    pub fn apply_read(&mut self, read: Result<bool, P::Error>, now: u64) -> (r: Result<Option<ButtonEvent>, P::Error>)
        ensures
            (final(self)@, r) == Self::read_step(old(self).active_low_spec(), old(self)@, read, now),
            final(self).active_low_spec() == old(self).active_low_spec(),
            final(self).pin_spec() == old(self).pin_spec(),
    {
        match read {
            Ok(level) => {
                let pressed = level_to_pressed(self.active_low, level);
                Ok(self.decoder.update(pressed, now))
            },
            Err(e) => Err(e),
        }
    }

    /// Reads the pin and ticks the internal [`ButtonDecoder`].
    ///
    /// # Errors
    ///
    /// Returns `Err(e)` if the pin read fails; the decoder is then left
    /// unchanged.
    pub fn update(&mut self, now: u64) -> (r: Result<Option<ButtonEvent>, P::Error>)
        ensures
            final(self).active_low_spec() == old(self).active_low_spec(),
            exists|read: Result<bool, P::Error>| (final(self)@, r)
                == #[trigger] Self::read_step(old(self).active_low_spec(), old(self)@, read, now),
    {
        let ghost before = self@;
        let ghost active_low = self.active_low_spec();
        let read = self.pin.read_level();
        let r = self.apply_read(read, now);
        assert((self@, r) == Self::read_step(active_low, before, read, now));
        r
    }

    /// Returns the current debounced pressed state without reading the pin.
    pub fn is_pressed(&self) -> (r: bool)
        ensures
            r == self@.edges.stable,
    {
        self.decoder.is_pressed()
    }

    /// Returns a shared reference to the underlying pin.
    pub fn pin(&self) -> (r: &P)
        ensures
            *r == self.pin_spec(),
    {
        &self.pin
    }

    /// Returns a mutable reference to the underlying pin.
    pub fn pin_mut(&mut self) -> (r: &mut P)
        ensures
            *r == old(self).pin_spec(),
            final(self).pin_spec() == *final(r),
            final(self)@ == old(self)@,
            final(self).active_low_spec() == old(self).active_low_spec(),
    {
        &mut self.pin
    }
}

/// What one decoder step does to the event bookkeeping of a reachable
/// state.
proof fn lemma_button_step(v: ButtonView, pressed: bool, now: u64)
    requires
        v.wf(),
    ensures
        ({
            let (n, r) = v.step(pressed, now);
            &&& n.wf()
            &&& r == Some(ButtonEvent::Press) ==> !v.release_owed() && n.release_owed() && n.edges.stable
                && !n.long_press_fired
            &&& r == Some(ButtonEvent::Release) ==> v.release_owed() && !n.release_owed() && !n.edges.stable
            &&& r != Some(ButtonEvent::Press) && r != Some(ButtonEvent::Release) ==> n.release_owed()
                == v.release_owed()
            &&& r == Some(ButtonEvent::LongPress) ==> !v.long_press_fired && n.long_press_fired
                && v.release_owed() && n.release_owed()
            &&& r != Some(ButtonEvent::Press) && r != Some(ButtonEvent::LongPress) ==> n.long_press_fired
                == v.long_press_fired
            &&& (r == Some(ButtonEvent::Click) || r == Some(ButtonEvent::DoubleClick)) ==> v.pending == r
            &&& (n.pending == Some(ButtonEvent::Click) || n.pending == Some(ButtonEvent::DoubleClick))
                ==> r == Some(ButtonEvent::Release) && !v.long_press_fired
        }),
{
}

/// The state after feeding the samples `(pressed, now)`, in order.
pub open spec fn button_run(s: ButtonView, samples: Seq<(bool, u64)>) -> ButtonView
    decreases samples.len(),
{
    if samples.len() == 0 {
        s
    } else {
        button_run(s, samples.drop_last()).step(samples.last().0, samples.last().1).0
    }
}

/// The result of each call while feeding the samples, in order.
pub open spec fn button_events(s: ButtonView, samples: Seq<(bool, u64)>) -> Seq<Option<ButtonEvent>>
    decreases samples.len(),
{
    if samples.len() == 0 {
        Seq::empty()
    } else {
        button_events(s, samples.drop_last()).push(
            button_run(s, samples.drop_last()).step(samples.last().0, samples.last().1).1,
        )
    }
}

/// The number of `Press` and `Release` events in `events`.
pub open spec fn press_release_count(events: Seq<Option<ButtonEvent>>) -> nat
    decreases events.len(),
{
    if events.len() == 0 {
        0
    } else {
        press_release_count(events.drop_last()) + if events.last() == Some(ButtonEvent::Press)
            || events.last() == Some(ButtonEvent::Release) {
            1nat
        } else {
            0nat
        }
    }
}

/// Whether a `LongPress` came after the last `Press` of `events`; with no
/// `Press` in `events`, whether one came at all or `start_fired` (a long
/// press already counted for the hold the run started in).
pub open spec fn long_press_since_press(start_fired: bool, events: Seq<Option<ButtonEvent>>) -> bool
    decreases events.len(),
{
    if events.len() == 0 {
        start_fired
    } else if events.last() == Some(ButtonEvent::Press) {
        false
    } else if events.last() == Some(ButtonEvent::LongPress) {
        true
    } else {
        long_press_since_press(start_fired, events.drop_last())
    }
}

/// Whether a `Release` is owed after `events` from the state `s`: the number
/// of `Press`/`Release` events, plus one when `s` already owed a `Release`
/// (it was pressed), is odd.
pub open spec fn release_owed_after(s: ButtonView, events: Seq<Option<ButtonEvent>>) -> bool {
    (press_release_count(events) + if s.release_owed() {
        1nat
    } else {
        0nat
    }) % 2 == 1
}

/// The bookkeeping of a whole run from a state with nothing queued.
proof fn lemma_button_run(s: ButtonView, samples: Seq<(bool, u64)>)
    requires
        s.wf(),
        s.pending is None,
    ensures
        ({
            let r = button_run(s, samples);
            let e = button_events(s, samples);
            &&& e.len() == samples.len()
            &&& r.wf()
            &&& r.release_owed() == release_owed_after(s, e)
            &&& r.long_press_fired == long_press_since_press(s.long_press_fired, e)
            &&& (r.pending == Some(ButtonEvent::Click) || r.pending == Some(ButtonEvent::DoubleClick))
                ==> e.len() > 0 && e.last() == Some(ButtonEvent::Release)
                    && !long_press_since_press(s.long_press_fired, e.drop_last())
        }),
    decreases samples.len(),
{
    if samples.len() > 0 {
        let p = samples.drop_last();
        lemma_button_run(s, p);
        let prev = button_run(s, p);
        lemma_button_step(prev, samples.last().0, samples.last().1);
        let e = button_events(s, samples);
        assert(e.drop_last() =~= button_events(s, p));
    }
}

/// What the `i`-th call of a run from `s` may return, given the events
/// before it: a `Press` only when no `Release` is owed, leaving the button
/// pressed; a `Release` only when one is owed, leaving it released; a
/// `LongPress` only while a `Release` is owed, and only once per press (not
/// at all in a hold already counted as long when the run started); a
/// `Click` or `DoubleClick` only on the call right after a `Release`, of a
/// press that had no `LongPress`.
pub open spec fn button_event_fits(s: ButtonView, samples: Seq<(bool, u64)>, i: int) -> bool {
    let e = button_events(s, samples);
    let before = e.take(i);
    let after = button_run(s, samples.take(i + 1));
    &&& e[i] == Some(ButtonEvent::Press) ==> !release_owed_after(s, before) && after.edges.stable
    &&& e[i] == Some(ButtonEvent::Release) ==> release_owed_after(s, before) && !after.edges.stable
    &&& e[i] == Some(ButtonEvent::LongPress) ==> release_owed_after(s, before)
        && !long_press_since_press(s.long_press_fired, before)
    &&& (e[i] == Some(ButtonEvent::Click) || e[i] == Some(ButtonEvent::DoubleClick)) ==> i > 0 && e[i - 1]
        == Some(ButtonEvent::Release) && !long_press_since_press(s.long_press_fired, e.take(i - 1))
}

/// Button event sequences: from any state with nothing queued (in
/// particular any decoder just made by [`ButtonDecoder::new`]), every call
/// of any run of samples fits [`button_event_fits`]: `Press` and `Release`
/// strictly alternate, starting with `Press` from a released decoder and
/// with `Release` from a pressed one; a `LongPress` comes at most once per
/// press and only before its `Release`; and `Click` / `DoubleClick` come
/// only right after the `Release` of a press without `LongPress`.
pub proof fn lemma_button_event_sequences(s: ButtonView, samples: Seq<(bool, u64)>)
    requires
        s.wf(),
        s.pending is None,
    ensures
        button_events(s, samples).len() == samples.len(),
        forall|i: int| 0 <= i < samples.len() ==> #[trigger] button_event_fits(s, samples, i),
{
    lemma_button_run(s, samples);
    let e = button_events(s, samples);
    assert forall|i: int| 0 <= i < samples.len() implies #[trigger] button_event_fits(s, samples, i) by {
        let pre = samples.take(i);
        let upto = samples.take(i + 1);
        lemma_button_events_prefix(s, samples, i + 1);
        lemma_button_run(s, pre);
        let prev = button_run(s, pre);
        lemma_button_step(prev, samples[i].0, samples[i].1);
        assert(upto.drop_last() =~= pre);
        assert(upto.last() == samples[i]);
        assert(button_events(s, upto) =~= e.take(i + 1));
        assert(button_events(s, upto).drop_last() =~= button_events(s, pre));
        assert(e.take(i) =~= button_events(s, pre));
        assert(e[i] == button_events(s, upto).last());
        if i > 0 {
            assert(e.take(i).last() == e[i - 1]);
            assert(e.take(i).drop_last() =~= e.take(i - 1));
        }
    }
}

/// The event-sequence law for a decoder made by
/// [`ButtonDecoder::new`]`(initial_pressed, ..)`. Built released, its first
/// `Press`/`Release` event is a `Press`; built pressed, that hold counts as
/// long already, so its first such event is a bare `Release` (no `Click`
/// and no `LongPress` before it).
pub proof fn lemma_button_sequences_from_new(
    initial_pressed: bool,
    debounce: u64,
    long_press: u64,
    double_click: u64,
    samples: Seq<(bool, u64)>,
)
    ensures
        ({
            let s = ButtonView::initial(initial_pressed, debounce, long_press, double_click);
            &&& s.release_owed() == initial_pressed
            &&& s.long_press_fired == initial_pressed
            &&& button_events(s, samples).len() == samples.len()
            &&& forall|i: int| 0 <= i < samples.len() ==> #[trigger] button_event_fits(s, samples, i)
        }),
{
    lemma_button_event_sequences(ButtonView::initial(initial_pressed, debounce, long_press, double_click), samples);
}

/// The events of a prefix of the samples are the prefix of the events.
proof fn lemma_button_events_prefix(s: ButtonView, samples: Seq<(bool, u64)>, k: int)
    requires
        0 <= k <= samples.len(),
    ensures
        button_events(s, samples.take(k)) == button_events(s, samples).take(k),
        button_events(s, samples).len() == samples.len(),
    decreases samples.len(),
{
    if samples.len() > 0 {
        let p = samples.drop_last();
        if k < samples.len() {
            lemma_button_events_prefix(s, p, k);
            assert(p.take(k) =~= samples.take(k));
            assert(button_events(s, samples).take(k) =~= button_events(s, p).take(k));
        } else {
            lemma_button_events_prefix(s, p, k - 1);
            assert(samples.take(k) =~= samples);
            assert(button_events(s, samples).take(k) =~= button_events(s, samples));
        }
    }
}

/// How a confirmed release is classified, from the hold it ends and the
/// previous click: a hold that reached the long-press threshold without
/// having fired yet fires `LongPress` (the `Release` follows, no click);
/// a hold that already fired gives a bare `Release`; otherwise the release
/// queues `DoubleClick` exactly when a previous click is open and this
/// release falls strictly within the double-click window of it, and
/// `Click` otherwise, opening a new pairing at `now`. A `DoubleClick` leaves
/// no click open.
pub proof fn lemma_release_classification(v: ButtonView, now: u64)
    ensures
        ({
            let (n, r) = v.on_release(now);
            let held = if now >= v.pressed_since {
                now - v.pressed_since
            } else {
                0
            };
            &&& !v.long_press_fired && held >= v.long_press ==> r == ButtonEvent::LongPress && n.pending
                == Some(ButtonEvent::Release) && n.last_click is None
            &&& v.long_press_fired ==> r == ButtonEvent::Release && n.pending == v.pending && n.last_click is None
            &&& !v.long_press_fired && held < v.long_press ==> r == ButtonEvent::Release && match v.last_click {
                Some(t0) => if now >= t0 && now - t0 < v.double_click || now < t0 && v.double_click > 0 {
                    n.pending == Some(ButtonEvent::DoubleClick) && n.last_click is None
                } else {
                    n.pending == Some(ButtonEvent::Click) && n.last_click == Some(now)
                },
                None => n.pending == Some(ButtonEvent::Click) && n.last_click == Some(now),
            }
        }),
{
}

/// The last `Click` or `DoubleClick` in `events`, if any.
pub open spec fn last_click_gesture(events: Seq<Option<ButtonEvent>>) -> Option<ButtonEvent>
    decreases events.len(),
{
    if events.len() == 0 {
        None
    } else if events.last() == Some(ButtonEvent::Click) || events.last() == Some(
        ButtonEvent::DoubleClick,
    ) {
        events.last()
    } else {
        last_click_gesture(events.drop_last())
    }
}

/// How the click pairing of a reachable state relates to its history: a
/// click open for pairing is the last click gesture (or is about to be
/// delivered), and a queued `DoubleClick` or `Release` leaves no click open.
spec fn pairing_inv(v: ButtonView, e: Seq<Option<ButtonEvent>>) -> bool {
    &&& v.wf()
    &&& v.last_click is Some ==> (last_click_gesture(e) == Some(ButtonEvent::Click) || v.pending == Some(
        ButtonEvent::Click,
    ))
    &&& v.pending == Some(ButtonEvent::DoubleClick) ==> v.last_click is None && last_click_gesture(e)
        == Some(ButtonEvent::Click)
    &&& v.pending == Some(ButtonEvent::Release) ==> v.last_click is None
}

proof fn lemma_pairing_step(v: ButtonView, e: Seq<Option<ButtonEvent>>, pressed: bool, now: u64)
    requires
        pairing_inv(v, e),
    ensures
        pairing_inv(v.step(pressed, now).0, e.push(v.step(pressed, now).1)),
        v.step(pressed, now).1 == Some(ButtonEvent::DoubleClick) ==> last_click_gesture(e) == Some(
            ButtonEvent::Click,
        ),
{
    lemma_button_step(v, pressed, now);
    let (n, r) = v.step(pressed, now);
    let e2 = e.push(r);
    assert(e2.drop_last() =~= e);
    assert(e2.last() == r);
}

proof fn lemma_pairing_run(s: ButtonView, samples: Seq<(bool, u64)>)
    requires
        s.wf(),
        s.pending is None,
        s.last_click is None,
    ensures
        pairing_inv(button_run(s, samples), button_events(s, samples)),
    decreases samples.len(),
{
    if samples.len() > 0 {
        let p = samples.drop_last();
        lemma_pairing_run(s, p);
        lemma_pairing_step(button_run(s, p), button_events(s, p), samples.last().0, samples.last().1);
    }
}

/// A double click consumes its pairing: over any run from a decoder with no
/// click open (as [`ButtonDecoder::new`] makes), every `DoubleClick` is
/// preceded by a `Click` as the last click gesture before it, so two
/// `DoubleClick`s always have a `Click` between them and a third quick tap
/// after a double click is a `Click` again.
pub proof fn lemma_double_click_follows_click(s: ButtonView, samples: Seq<(bool, u64)>)
    requires
        s.wf(),
        s.pending is None,
        s.last_click is None,
    ensures
        forall|i: int|
            0 <= i < samples.len() && #[trigger] button_events(s, samples)[i] == Some(
                ButtonEvent::DoubleClick,
            ) ==> last_click_gesture(button_events(s, samples).take(i)) == Some(ButtonEvent::Click),
{
    let e = button_events(s, samples);
    assert forall|i: int|
        0 <= i < samples.len() && #[trigger] e[i] == Some(ButtonEvent::DoubleClick) implies last_click_gesture(
        e.take(i),
    ) == Some(ButtonEvent::Click) by {
        let pre = samples.take(i);
        let upto = samples.take(i + 1);
        lemma_button_events_prefix(s, samples, i + 1);
        lemma_pairing_run(s, pre);
        lemma_pairing_step(button_run(s, pre), button_events(s, pre), samples[i].0, samples[i].1);
        assert(upto.drop_last() =~= pre);
        assert(upto.last() == samples[i]);
        assert(button_events(s, upto) =~= e.take(i + 1));
        assert(e.take(i) =~= button_events(s, pre));
        assert(e[i] == button_events(s, upto).last());
    }
}

/// The double-click law for a decoder made by [`ButtonDecoder::new`].
pub proof fn lemma_double_click_follows_click_from_new(
    initial_pressed: bool,
    debounce: u64,
    long_press: u64,
    double_click: u64,
    samples: Seq<(bool, u64)>,
)
    ensures
        ({
            let s = ButtonView::initial(initial_pressed, debounce, long_press, double_click);
            forall|i: int|
                0 <= i < samples.len() && #[trigger] button_events(s, samples)[i] == Some(
                    ButtonEvent::DoubleClick,
                ) ==> last_click_gesture(button_events(s, samples).take(i)) == Some(ButtonEvent::Click)
        }),
{
    lemma_double_click_follows_click(ButtonView::initial(initial_pressed, debounce, long_press, double_click), samples);
}

} // verus!
