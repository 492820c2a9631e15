//! Touch-event detection: [`TouchTracker`], [`TouchEvent`], [`TouchPoint`]
//! and [`SwipeDirection`].
//!
//! Turns a per-frame touch sample (`Some(point)` while touched, `None` when
//! not) into the raw [`Down`](TouchEvent::Down) / [`Move`](TouchEvent::Move) /
//! [`Up`](TouchEvent::Up) contact edges plus the [`Tap`](TouchEvent::Tap),
//! [`LongPress`](TouchEvent::LongPress) and [`Swipe`](TouchEvent::Swipe)
//! gestures, derived purely from motion and timing.
//!
//! The caller owns the clock; elapsed time saturates at zero. Points are in
//! calibrated display coordinates (`y` grows downward). At most one event is
//! emitted per [`update`](TouchTracker::update); a lift emits `Up` and queues
//! the terminal gesture for the next call:
//!
//! | Gesture | Events, in order |
//! |---|---|
//! | Tap | `Down`, `Up`, `Tap` |
//! | Swipe | `Down`, `Move`…, `Up`, `Swipe` |
//! | Long press | `Down`, `LongPress` (mid-hold), `Move`…, `Up` |
use crate::debounce::{elapsed, elapsed_ticks};
use vstd::prelude::*;

verus! {

/// A touch position in calibrated, rotated display coordinates.
#[derive(Debug, Clone, Copy, PartialEq, Eq, Structural, Hash)]
pub struct TouchPoint {
    /// Horizontal coordinate, growing to the right.
    pub x: i16,
    /// Vertical coordinate, growing downward.
    pub y: i16,
}

impl Default for TouchPoint {
    fn default() -> (r: Self)
        ensures
            r == (TouchPoint { x: 0, y: 0 }),
    {
        TouchPoint { x: 0, y: 0 }
    }
}

/// The direction of a completed swipe, in display coordinates.
///
/// The dominant axis selects the direction; a tie (`|dx| == |dy|`) goes
/// horizontal.
#[derive(Debug, Clone, Copy, PartialEq, Eq, Structural, Hash)]
pub enum SwipeDirection {
    /// Toward smaller `y` (the top of the screen).
    Up,
    /// Toward larger `y` (the bottom of the screen).
    Down,
    /// Toward smaller `x` (the left edge).
    Left,
    /// Toward larger `x` (the right edge).
    Right,
}

/// A semantic touch event emitted by [`TouchTracker::update`].
#[derive(Debug, Clone, Copy, PartialEq, Eq, Structural, Hash)]
pub enum TouchEvent {
    /// A finger made contact.
    Down(TouchPoint),
    /// The touch moved more than `move_epsilon` (Chebyshev) away from the
    /// last reported point and re-anchored there.
    Move(TouchPoint),
    /// The finger lifted; carries the last reported point.
    Up(TouchPoint),
    /// A touch that never strayed beyond `move_epsilon` from its origin and
    /// fired no long press; carries the origin.
    Tap(TouchPoint),
    /// The touch was held for the long-press threshold without straying;
    /// carries the origin.
    LongPress(TouchPoint),
    /// The net delta from the origin to the last reported point reached
    /// `swipe_min_distance` on the dominant axis at lift.
    Swipe(SwipeDirection),
}

/// Absolute value of an integer.
pub open spec fn abs_int(v: int) -> int {
    if v < 0 {
        -v
    } else {
        v
    }
}

/// Chebyshev (chessboard) distance between two points: the larger of the
/// absolute per-axis deltas.
pub open spec fn chebyshev_spec(a: TouchPoint, b: TouchPoint) -> int {
    let dx = abs_int(a.x - b.x);
    let dy = abs_int(a.y - b.y);
    if dx >= dy {
        dx
    } else {
        dy
    }
}

/// The swipe direction of the net `origin -> end` delta: the dominant axis
/// wins, a tie goes horizontal, and `y` grows downward.
pub open spec fn swipe_direction_spec(origin: TouchPoint, end: TouchPoint) -> SwipeDirection {
    let dx = end.x - origin.x;
    let dy = end.y - origin.y;
    if abs_int(dy) > abs_int(dx) {
        if dy > 0 {
            SwipeDirection::Down
        } else {
            SwipeDirection::Up
        }
    } else if dx > 0 {
        SwipeDirection::Right
    } else {
        SwipeDirection::Left
    }
}

/// The Chebyshev distance is the larger of the two absolute per-axis
/// deltas: it bounds each of `±dx`, `±dy` and equals one of them.
pub proof fn lemma_chebyshev_is_max_axis_delta(a: TouchPoint, b: TouchPoint)
    ensures
        chebyshev_spec(a, b) >= a.x - b.x,
        chebyshev_spec(a, b) >= b.x - a.x,
        chebyshev_spec(a, b) >= a.y - b.y,
        chebyshev_spec(a, b) >= b.y - a.y,
        chebyshev_spec(a, b) == a.x - b.x || chebyshev_spec(a, b) == b.x - a.x || chebyshev_spec(a, b)
            == a.y - b.y || chebyshev_spec(a, b) == b.y - a.y,
        chebyshev_spec(a, b) == chebyshev_spec(b, a),
{
}

/// The swipe direction follows the dominant axis of the net delta
/// `(dx, dy) = end - origin`: when `|dy| <= |dx|` it is `Right` for
/// `dx > 0` and `Left` otherwise; when `|dy| > |dx|` it is `Down` for
/// `dy > 0` (screen `y` grows downward) and `Up` for `dy < 0`. Reversing
/// the delta reverses a strict direction.
pub proof fn lemma_swipe_direction_dominant_axis(origin: TouchPoint, end: TouchPoint)
    ensures
        end.x - origin.x > 0 && -(end.x - origin.x) <= end.y - origin.y <= end.x - origin.x
            ==> swipe_direction_spec(origin, end) == SwipeDirection::Right,
        end.x - origin.x <= 0 && end.x - origin.x <= end.y - origin.y <= -(end.x - origin.x)
            ==> swipe_direction_spec(origin, end) == SwipeDirection::Left,
        end.y - origin.y > 0 && end.y - origin.y > end.x - origin.x && end.y - origin.y > origin.x - end.x
            ==> swipe_direction_spec(origin, end) == SwipeDirection::Down,
        end.y - origin.y < 0 && origin.y - end.y > end.x - origin.x && origin.y - end.y > origin.x - end.x
            ==> swipe_direction_spec(origin, end) == SwipeDirection::Up,
        end.x - origin.x != 0 || end.y - origin.y != 0 ==> (swipe_direction_spec(origin, end)
            == SwipeDirection::Right <==> swipe_direction_spec(end, origin) == SwipeDirection::Left),
        swipe_direction_spec(origin, end) == SwipeDirection::Down <==> swipe_direction_spec(end, origin)
            == SwipeDirection::Up,
{
}

fn abs_diff_i16(a: i16, b: i16) -> (r: u32)
    ensures
        r == abs_int(a - b),
    no_unwind
{
    let d = a as i32 - b as i32;
    if d < 0 {
        (-d) as u32
    } else {
        d as u32
    }
}

fn chebyshev(a: TouchPoint, b: TouchPoint) -> (r: u32)
    ensures
        r == chebyshev_spec(a, b),
    no_unwind
{
    let dx = abs_diff_i16(a.x, b.x);
    let dy = abs_diff_i16(a.y, b.y);
    if dx >= dy {
        dx
    } else {
        dy
    }
}

fn swipe_direction(origin: TouchPoint, end: TouchPoint) -> (r: SwipeDirection)
    ensures
        r == swipe_direction_spec(origin, end),
    no_unwind
{
    let dx = end.x as i32 - origin.x as i32;
    let dy = end.y as i32 - origin.y as i32;
    if abs_diff_i16(end.y, origin.y) > abs_diff_i16(end.x, origin.x) {
        if dy > 0 {
            SwipeDirection::Down
        } else {
            SwipeDirection::Up
        }
    } else if dx > 0 {
        SwipeDirection::Right
    } else {
        SwipeDirection::Left
    }
}

/// Abstract state of a touch in progress.
pub struct ContactView {
    /// Tick of the `Down` edge.
    pub down_at: u64,
    /// The `Down` point; gestures classify against it.
    pub origin: TouchPoint,
    /// The last reported point: the origin, re-anchored by each `Move`.
    pub last: TouchPoint,
    /// Latched once the touch strays beyond `move_epsilon` from the origin.
    pub moved: bool,
    /// A `LongPress` was already emitted for this touch.
    pub long_press_fired: bool,
}

/// Abstract state of a [`TouchTracker`].
pub struct TouchView {
    /// Long-press threshold in ticks.
    pub long_press: u64,
    /// Minimum net delta (dominant axis) for a swipe.
    pub swipe_min_distance: u16,
    /// Jitter radius (Chebyshev).
    pub move_epsilon: u16,
    /// The touch in progress, if any.
    pub contact: Option<ContactView>,
    /// The event queued for the next call.
    pub pending: Option<TouchEvent>,
}

impl TouchView {
    /// Reachable states: an event is queued only once the touch has lifted,
    /// and it is an `Up`, `Tap` or `Swipe`.
    pub open spec fn wf(self) -> bool {
        &&& self.pending is Some ==> self.contact is None
        &&& !(self.pending matches Some(TouchEvent::Down(_)))
        &&& !(self.pending matches Some(TouchEvent::Move(_)))
        &&& !(self.pending matches Some(TouchEvent::LongPress(_)))
    }

    /// An `Up` is owed: a touch is in progress, or its `Up` is queued.
    pub open spec fn up_owed(self) -> bool {
        self.contact is Some || self.pending matches Some(TouchEvent::Up(_))
    }

    /// The gesture queued behind the `Up` of a lifted touch.
    pub open spec fn release_gesture(self, c: ContactView) -> Option<TouchEvent> {
        if c.long_press_fired {
            None
        } else if chebyshev_spec(c.last, c.origin) >= self.swipe_min_distance {
            Some(TouchEvent::Swipe(swipe_direction_spec(c.origin, c.last)))
        } else if !c.moved {
            Some(TouchEvent::Tap(c.origin))
        } else {
            None
        }
    }

    /// One tracker step: the state after feeding `touch` at `now`, and the
    /// emitted event, if any.
    pub open spec fn step(self, touch: Option<TouchPoint>, now: u64) -> (TouchView, Option<TouchEvent>) {
        if self.pending is Some {
            (TouchView { pending: None, ..self }, self.pending)
        } else {
            match self.contact {
                None => match touch {
                    None => (self, None),
                    Some(p) => (TouchView {
                        contact: Some(ContactView {
                            down_at: now,
                            origin: p,
                            last: p,
                            moved: false,
                            long_press_fired: false,
                        }),
                        ..self
                    }, Some(TouchEvent::Down(p))),
                },
                Some(c) => {
                    let due = elapsed(now, c.down_at) >= self.long_press;
                    match touch {
                        Some(p) => {
                            let moved = c.moved || chebyshev_spec(p, c.origin) > self.move_epsilon;
                            if !c.long_press_fired && !moved && due {
                                (TouchView {
                                    contact: Some(ContactView { moved, long_press_fired: true, ..c }),
                                    ..self
                                }, Some(TouchEvent::LongPress(c.origin)))
                            } else if chebyshev_spec(p, c.last) > self.move_epsilon {
                                (TouchView {
                                    contact: Some(ContactView { moved, last: p, ..c }),
                                    ..self
                                }, Some(TouchEvent::Move(p)))
                            } else {
                                (TouchView { contact: Some(ContactView { moved, ..c }), ..self }, None)
                            }
                        },
                        None => if !c.long_press_fired && !c.moved && due {
                            (TouchView {
                                contact: None,
                                pending: Some(TouchEvent::Up(c.last)),
                                ..self
                            }, Some(TouchEvent::LongPress(c.origin)))
                        } else {
                            (TouchView {
                                contact: None,
                                pending: self.release_gesture(c),
                                ..self
                            }, Some(TouchEvent::Up(c.last)))
                        },
                    }
                },
            }
        }
    }
}

/// Internal tracker state: per-touch bookkeeping exists only while a touch
/// is in progress.
#[derive(Debug, Clone, Copy)]
enum State {
    Idle,
    Touched {
        down_at: u64,
        origin: TouchPoint,
        last: TouchPoint,
        moved: bool,
        long_press_fired: bool,
    },
}

/// Pure touch-event tracker.
///
/// Feed one sample per poll frame plus the current time to
/// [`update`](TouchTracker::update) and receive [`TouchEvent`]s. Terminal
/// gestures arrive one call after the `Up`, so keep polling.
#[derive(Debug, Clone, Copy)]
pub struct TouchTracker {
    long_press: u64,
    swipe_min_distance: u16,
    move_epsilon: u16,
    state: State,
    pending: Option<TouchEvent>,
}

impl View for TouchTracker {
    type V = TouchView;

    closed spec fn view(&self) -> TouchView {
        TouchView {
            long_press: self.long_press,
            swipe_min_distance: self.swipe_min_distance,
            move_epsilon: self.move_epsilon,
            contact: match self.state {
                State::Idle => None,
                State::Touched { down_at, origin, last, moved, long_press_fired } => Some(
                    ContactView { down_at, origin, last, moved, long_press_fired },
                ),
            },
            pending: self.pending,
        }
    }
}

impl TouchTracker {
    #[verifier::type_invariant]
    spec fn inv(self) -> bool {
        self@.wf()
    }

    /// Creates a new tracker, starting idle.
    ///
    /// - `long_press`: minimum unmoved hold, in ticks, for `LongPress`
    ///   (inclusive; `0` makes every touch an immediate long press).
    /// - `swipe_min_distance`: minimum net origin-to-lift delta on the
    ///   dominant axis for a `Swipe` (inclusive).
    /// - `move_epsilon`: jitter radius (Chebyshev). Straying strictly beyond
    ///   it from the origin cancels `Tap` and `LongPress`; each point strictly
    ///   beyond it from the last reported point emits a `Move`.
    pub fn new(long_press: u64, swipe_min_distance: u16, move_epsilon: u16) -> (r: Self)
        ensures
            r@ == (TouchView { long_press, swipe_min_distance, move_epsilon, contact: None, pending: None }),
    {
        Self { long_press, swipe_min_distance, move_epsilon, state: State::Idle, pending: None }
    }

    /// Feeds one touch frame at time `now` and returns at most one
    /// [`TouchEvent`].
    pub fn update(&mut self, touch: Option<TouchPoint>, now: u64) -> (r: Option<TouchEvent>)
        ensures
            (final(self)@, r) == old(self)@.step(touch, now),
            old(self)@.wf(),
            final(self)@.wf(),
            // Down and Up alternate: every Down is matched by exactly one Up.
            r matches Some(TouchEvent::Down(_)) ==> !old(self)@.up_owed() && final(self)@.up_owed(),
            r matches Some(TouchEvent::Up(_)) ==> old(self)@.up_owed() && !final(self)@.up_owed(),
            !(r matches Some(TouchEvent::Down(_))) && !(r matches Some(TouchEvent::Up(_)))
                ==> final(self)@.up_owed() == old(self)@.up_owed(),
            // Tap and Swipe are delivered only from the queue, and are queued
            // only by a call that returns Up.
            (r matches Some(TouchEvent::Tap(_)) || r matches Some(TouchEvent::Swipe(_))) ==> old(self)@.pending == r,
            (final(self)@.pending matches Some(TouchEvent::Tap(_)) || final(self)@.pending matches Some(TouchEvent::Swipe(_)))
                ==> r matches Some(TouchEvent::Up(_)),
            // A tap never strayed beyond the epsilon and fired no long press.
            final(self)@.pending matches Some(TouchEvent::Tap(_)) && old(self)@.pending is None ==>
                (old(self)@.contact matches Some(c) && !c.moved && !c.long_press_fired && touch is None),
            // A long press fires at most once per touch, and suppresses the
            // release gesture.
            r matches Some(TouchEvent::LongPress(_)) ==>
                (old(self)@.contact matches Some(c) && !c.long_press_fired && !c.moved),
            (old(self)@.contact matches Some(c) && c.long_press_fired) ==> final(self)@.pending is None,
            (old(self)@.contact matches Some(c) && c.long_press_fired) ==>
                !(r matches Some(TouchEvent::LongPress(_))),
    {
        proof {
            use_type_invariant(&*self);
        }
        if let Some(event) = self.pending {
            self.pending = None;
            return Some(event);
        }
        match self.state {
            State::Idle => match touch {
                None => None,
                Some(point) => {
                    self.state = State::Touched {
                        down_at: now,
                        origin: point,
                        last: point,
                        moved: false,
                        long_press_fired: false,
                    };
                    Some(TouchEvent::Down(point))
                },
            },
            State::Touched { down_at, origin, last, moved, long_press_fired } => match touch {
                Some(point) => {
                    let epsilon = self.move_epsilon as u32;
                    let mut last = last;
                    let mut moved = moved;
                    let mut long_press_fired = long_press_fired;
                    if !moved && chebyshev(point, origin) > epsilon {
                        moved = true;
                    }
                    let long_press_due = elapsed_ticks(now, down_at) >= self.long_press;
                    let event = if !long_press_fired && !moved && long_press_due {
                        long_press_fired = true;
                        Some(TouchEvent::LongPress(origin))
                    } else if chebyshev(point, last) > epsilon {
                        last = point;
                        Some(TouchEvent::Move(point))
                    } else {
                        None
                    };
                    self.state = State::Touched { down_at, origin, last, moved, long_press_fired };
                    event
                },
                None => {
                    self.state = State::Idle;
                    if !long_press_fired && !moved && elapsed_ticks(now, down_at) >= self.long_press {
                        self.pending = Some(TouchEvent::Up(last));
                        return Some(TouchEvent::LongPress(origin));
                    }
                    if !long_press_fired {
                        if chebyshev(last, origin) >= self.swipe_min_distance as u32 {
                            self.pending = Some(TouchEvent::Swipe(swipe_direction(origin, last)));
                        } else if !moved {
                            self.pending = Some(TouchEvent::Tap(origin));
                        }
                    }
                    Some(TouchEvent::Up(last))
                },
            },
        }
    }

    /// Returns `true` while a touch is in progress.
    pub fn is_touched(&self) -> (r: bool)
        ensures
            r == self@.contact is Some,
    {
        match self.state {
            State::Idle => false,
            State::Touched { .. } => true,
        }
    }

    /// Returns the last reported point (the `Down` point, re-anchored by each
    /// `Move`) while touched, `None` when idle.
    pub fn position(&self) -> (r: Option<TouchPoint>)
        ensures
            r == match self@.contact {
                Some(c) => Some(c.last),
                None => None,
            },
    {
        match self.state {
            State::Idle => None,
            State::Touched { last, .. } => Some(last),
        }
    }
}

/// The state after feeding the frames `(touch, now)`, in order.
pub open spec fn touch_run(s: TouchView, frames: Seq<(Option<TouchPoint>, u64)>) -> TouchView
    decreases frames.len(),
{
    if frames.len() == 0 {
        s
    } else {
        touch_run(s, frames.drop_last()).step(frames.last().0, frames.last().1).0
    }
}

/// The result of each call while feeding the frames, in order.
pub open spec fn touch_events(s: TouchView, frames: Seq<(Option<TouchPoint>, u64)>) -> Seq<Option<TouchEvent>>
    decreases frames.len(),
{
    if frames.len() == 0 {
        Seq::empty()
    } else {
        touch_events(s, frames.drop_last()).push(
            touch_run(s, frames.drop_last()).step(frames.last().0, frames.last().1).1,
        )
    }
}

/// The number of `Down` and `Up` events in `events`.
pub open spec fn down_up_count(events: Seq<Option<TouchEvent>>) -> nat
    decreases events.len(),
{
    if events.len() == 0 {
        0
    } else {
        down_up_count(events.drop_last()) + if events.last() matches Some(TouchEvent::Down(_))
            || events.last() matches Some(TouchEvent::Up(_)) {
            1nat
        } else {
            0nat
        }
    }
}

/// The point of the last `Down` in `events`, if any.
pub open spec fn last_down(events: Seq<Option<TouchEvent>>) -> Option<TouchPoint>
    decreases events.len(),
{
    if events.len() == 0 {
        None
    } else if let Some(TouchEvent::Down(p)) = events.last() {
        Some(p)
    } else {
        last_down(events.drop_last())
    }
}

/// Whether a `LongPress` came after the last `Down` of `events`.
pub open spec fn long_press_since_down(events: Seq<Option<TouchEvent>>) -> bool
    decreases events.len(),
{
    if events.len() == 0 {
        false
    } else if events.last() matches Some(TouchEvent::Down(_)) {
        false
    } else if events.last() matches Some(TouchEvent::LongPress(_)) {
        true
    } else {
        long_press_since_down(events.drop_last())
    }
}

/// Whether a `Move` came after the last `Down` of `events`.
pub open spec fn move_since_down(events: Seq<Option<TouchEvent>>) -> bool
    decreases events.len(),
{
    if events.len() == 0 {
        false
    } else if events.last() matches Some(TouchEvent::Down(_)) {
        false
    } else if events.last() matches Some(TouchEvent::Move(_)) {
        true
    } else {
        move_since_down(events.drop_last())
    }
}

/// How a reachable state relates to the events that led to it.
pub open spec fn touch_history_inv(v: TouchView, e: Seq<Option<TouchEvent>>) -> bool {
    &&& v.wf()
    &&& v.up_owed() == (down_up_count(e) % 2 == 1)
    &&& down_up_count(e) > 0 ==> last_down(e) is Some
    &&& v.contact matches Some(c) ==> {
        &&& last_down(e) == Some(c.origin)
        &&& c.long_press_fired == long_press_since_down(e)
        &&& c.moved == move_since_down(e)
        &&& !c.moved ==> c.last == c.origin
    }
    &&& match v.pending {
        Some(TouchEvent::Up(_)) => e.len() > 0 && (e.last() matches Some(TouchEvent::LongPress(_)))
            && long_press_since_down(e),
        Some(TouchEvent::Tap(o)) => e.len() > 0 && match e.last() {
            Some(TouchEvent::Up(q)) => last_down(e) == Some(o) && !long_press_since_down(e)
                && !move_since_down(e) && chebyshev_spec(q, o) < v.swipe_min_distance,
            _ => false,
        },
        Some(TouchEvent::Swipe(d)) => e.len() > 0 && match (e.last(), last_down(e)) {
            (Some(TouchEvent::Up(q)), Some(o)) => d == swipe_direction_spec(o, q) && !long_press_since_down(e)
                && chebyshev_spec(q, o) >= v.swipe_min_distance,
            _ => false,
        },
        None => e.len() > 0 && (e.last() matches Some(TouchEvent::Up(_))) ==> match (e.last(), last_down(e)) {
            (Some(TouchEvent::Up(q)), Some(o)) => long_press_since_down(e) || (chebyshev_spec(q, o)
                < v.swipe_min_distance && move_since_down(e)),
            _ => false,
        },
        _ => true,
    }
}

/// One step keeps the history relation, and the settings never change.
proof fn lemma_touch_history_step(v: TouchView, e: Seq<Option<TouchEvent>>, touch: Option<TouchPoint>, now: u64)
    requires
        touch_history_inv(v, e),
    ensures
        touch_history_inv(v.step(touch, now).0, e.push(v.step(touch, now).1)),
        v.step(touch, now).0.swipe_min_distance == v.swipe_min_distance,
        v.step(touch, now).0.move_epsilon == v.move_epsilon,
        v.step(touch, now).0.long_press == v.long_press,
{
    let (n, ev) = v.step(touch, now);
    let e2 = e.push(ev);
    assert(e2.drop_last() =~= e);
    assert(e2.last() == ev);
}

/// The history relation along a whole run from an idle tracker.
proof fn lemma_touch_history_run(s: TouchView, frames: Seq<(Option<TouchPoint>, u64)>)
    requires
        s.contact is None,
        s.pending is None,
    ensures
        touch_events(s, frames).len() == frames.len(),
        touch_history_inv(touch_run(s, frames), touch_events(s, frames)),
        touch_run(s, frames).swipe_min_distance == s.swipe_min_distance,
    decreases frames.len(),
{
    if frames.len() > 0 {
        let p = frames.drop_last();
        lemma_touch_history_run(s, p);
        lemma_touch_history_step(touch_run(s, p), touch_events(s, p), frames.last().0, frames.last().1);
    }
}

/// What the `i`-th call of a run may return, given the events before it:
/// a `Down` only after an even number of `Down`/`Up` events and an `Up` only
/// after an odd number; a `LongPress` only during a touch, at most once per
/// touch, never after a `Move`, and carrying the `Down` point; a `Tap` or
/// `Swipe` only on the call right after an `Up`. The call right after an
/// `Up(q)` of a touch that began at `o` returns `Swipe` toward `q` when the
/// touch had no `LongPress` and `q` is at least the swipe distance from `o`,
/// else `Tap(o)` when it had neither a `LongPress` nor a `Move`, and
/// otherwise neither (it handles its own frame).
pub open spec fn touch_event_fits(s: TouchView, frames: Seq<(Option<TouchPoint>, u64)>, i: int) -> bool {
    let e = touch_events(s, frames);
    let before = e.take(i);
    &&& (e[i] matches Some(TouchEvent::Down(_))) ==> down_up_count(before) % 2 == 0
    &&& (e[i] matches Some(TouchEvent::Up(_))) ==> down_up_count(before) % 2 == 1
    &&& match e[i] {
        Some(TouchEvent::LongPress(o)) => down_up_count(before) % 2 == 1 && !long_press_since_down(before)
            && !move_since_down(before) && last_down(before) == Some(o),
        _ => true,
    }
    &&& (e[i] matches Some(TouchEvent::Tap(_)) || e[i] matches Some(TouchEvent::Swipe(_))) ==> i > 0 && (e[i
        - 1] matches Some(TouchEvent::Up(_)))
    &&& i > 0 ==> match (e[i - 1], last_down(before)) {
        (Some(TouchEvent::Up(q)), Some(o)) => if !long_press_since_down(before) && chebyshev_spec(q, o)
            >= s.swipe_min_distance {
            e[i] == Some(TouchEvent::Swipe(swipe_direction_spec(o, q)))
        } else if !long_press_since_down(before) && !move_since_down(before) {
            e[i] == Some(TouchEvent::Tap(o))
        } else {
            !(e[i] matches Some(TouchEvent::Tap(_))) && !(e[i] matches Some(TouchEvent::Swipe(_)))
        },
        (Some(TouchEvent::Up(_)), None) => false,
        _ => true,
    }
}

/// The events of a prefix of the frames are the prefix of the events.
proof fn lemma_touch_events_prefix(s: TouchView, frames: Seq<(Option<TouchPoint>, u64)>, k: int)
    requires
        0 <= k <= frames.len(),
    ensures
        touch_events(s, frames.take(k)) == touch_events(s, frames).take(k),
        touch_events(s, frames).len() == frames.len(),
    decreases frames.len(),
{
    if frames.len() > 0 {
        let p = frames.drop_last();
        if k < frames.len() {
            lemma_touch_events_prefix(s, p, k);
            assert(p.take(k) =~= frames.take(k));
            assert(touch_events(s, frames).take(k) =~= touch_events(s, p).take(k));
        } else {
            lemma_touch_events_prefix(s, p, k - 1);
            assert(frames.take(k) =~= frames);
            assert(touch_events(s, frames).take(k) =~= touch_events(s, frames));
        }
    }
}

/// Touch event sequences: from an idle tracker (as
/// [`TouchTracker::new`] makes), every call of any run of frames fits
/// [`touch_event_fits`].
pub proof fn lemma_touch_event_sequences(s: TouchView, frames: Seq<(Option<TouchPoint>, u64)>)
    requires
        s.contact is None,
        s.pending is None,
    ensures
        touch_events(s, frames).len() == frames.len(),
        forall|i: int| 0 <= i < frames.len() ==> #[trigger] touch_event_fits(s, frames, i),
{
    lemma_touch_history_run(s, frames);
    assert forall|i: int| 0 <= i < frames.len() implies #[trigger] touch_event_fits(s, frames, i) by {
        lemma_touch_event_fits_at(s, frames, i);
    }
}

/// One call of a run from an idle tracker fits [`touch_event_fits`].
#[verifier::spinoff_prover]
#[verifier::rlimit(50)]
proof fn lemma_touch_event_fits_at(s: TouchView, frames: Seq<(Option<TouchPoint>, u64)>, i: int)
    requires
        s.contact is None,
        s.pending is None,
        0 <= i < frames.len(),
    ensures
        touch_event_fits(s, frames, i),
{
    let e = touch_events(s, frames);
    let pre = frames.take(i);
    let upto = frames.take(i + 1);
    lemma_touch_events_prefix(s, frames, i + 1);
    lemma_touch_history_run(s, pre);
    let prev = touch_run(s, pre);
    lemma_touch_history_step(prev, touch_events(s, pre), frames[i].0, frames[i].1);
    assert(upto.drop_last() =~= pre);
    assert(upto.last() == frames[i]);
    assert(touch_events(s, upto) =~= e.take(i + 1));
    assert(touch_events(s, upto).drop_last() =~= touch_events(s, pre));
    assert(e.take(i) =~= touch_events(s, pre));
    assert(e[i] == touch_events(s, upto).last());
    if i > 0 {
        assert(e.take(i).last() == e[i - 1]);
    }
}

/// The event-sequence law for a tracker made by [`TouchTracker::new`].
pub proof fn lemma_touch_sequences_from_new(
    long_press: u64,
    swipe_min_distance: u16,
    move_epsilon: u16,
    frames: Seq<(Option<TouchPoint>, u64)>,
)
    ensures
        ({
            let s = TouchView { long_press, swipe_min_distance, move_epsilon, contact: None, pending: None };
            &&& touch_events(s, frames).len() == frames.len()
            &&& forall|i: int| 0 <= i < frames.len() ==> #[trigger] touch_event_fits(s, frames, i)
        }),
{
    lemma_touch_event_sequences(
        TouchView { long_press, swipe_min_distance, move_epsilon, contact: None, pending: None },
        frames,
    );
}

} // verus!
