//! Quadrature rotary encoder decoding: [`QuadratureDecoder`],
//! [`EncoderDirection`] and the [`QuadratureInput`] pin adapter.
//!
//! A rotary encoder outputs two square waves (A and B) 90° out of phase,
//! together a 2-bit Gray code. For an EC11 encoder turning clockwise the
//! sequence is `11 → 01 → 00 → 10 → 11`, counter-clockwise the reverse.
//!
//! The decoder accumulates half-steps and emits a position change only when
//! the accumulator reaches `±steps_per_detent`; spurious transitions in the
//! opposite direction subtract from it, cancelling contact bounce without any
//! timing logic.
use crate::digital::DigitalRead;
use vstd::prelude::*;

verus! {

/// The direction of a confirmed encoder detent step.
#[derive(Debug, Clone, Copy, PartialEq, Eq, Structural, Hash)]
pub enum EncoderDirection {
    /// The encoder moved clockwise (position increased by 1).
    Clockwise,
    /// The encoder moved counter-clockwise (position decreased by 1).
    CounterClockwise,
}

/// The 2-bit Gray-code state of the A/B levels: `A` is the high bit.
pub open spec fn ab_state(a: bool, b: bool) -> int {
    (if a { 2int } else { 0int }) + (if b { 1int } else { 0int })
}

/// Half-step contributed by the transition `prev -> curr` between 2-bit
/// states: `+1` clockwise, `-1` counter-clockwise, `0` for no change or an
/// invalid 2-bit jump (treated as a glitch).
pub open spec fn quad_step(prev: int, curr: int) -> int {
    if (prev == 0 && curr == 2) || (prev == 2 && curr == 3) || (prev == 3 && curr == 1) || (prev == 1
        && curr == 0) {
        1
    } else if (prev == 0 && curr == 1) || (prev == 1 && curr == 3) || (prev == 3 && curr == 2) || (
    prev == 2 && curr == 0) {
        -1
    } else {
        0
    }
}

/// Looks up the half-step of the transition whose index is
/// `prev * 4 + curr` in the quadrature transition table.
fn transition_step(index: u8) -> (r: i8)
    requires
        index < 16,
    ensures
        r == quad_step(index as int / 4, index as int % 4),
{
    match index {
        0 => 0,  // 00 -> 00: no change
        1 => -1,  // 00 -> 01: CCW
        2 => 1,  // 00 -> 10: CW
        3 => 0,  // 00 -> 11: invalid (2-bit jump)
        4 => 1,  // 01 -> 00: CW
        5 => 0,  // 01 -> 01: no change
        6 => 0,  // 01 -> 10: invalid (2-bit jump)
        7 => -1,  // 01 -> 11: CCW
        8 => -1,  // 10 -> 00: CCW
        9 => 0,  // 10 -> 01: invalid (2-bit jump)
        10 => 0,  // 10 -> 10: no change
        11 => 1,  // 10 -> 11: CW
        12 => 0,  // 11 -> 00: invalid (2-bit jump)
        13 => 1,  // 11 -> 01: CW
        14 => -1,  // 11 -> 10: CCW
        _ => 0,  // 11 -> 11: no change
    }
}

fn encode_ab(a: bool, b: bool) -> (r: u8)
    ensures
        r == ab_state(a, b),
{
    (if a { 2u8 } else { 0u8 }) + (if b { 1u8 } else { 0u8 })
}

/// Abstract state of a [`QuadratureDecoder`].
pub struct QuadratureView {
    /// The last sampled 2-bit A/B state.
    pub last_state: int,
    /// Accumulated half-steps since the last detent.
    pub accumulator: int,
    /// Half-steps per detent.
    pub steps_per_detent: int,
    /// Absolute position in detents.
    pub position: int,
}

impl QuadratureView {
    /// Reachable states: a 2-bit state, a positive `u8` detent size, and an
    /// accumulator strictly inside `±steps_per_detent`.
    pub open spec fn wf(self) -> bool {
        &&& 0 <= self.last_state < 4
        &&& 1 <= self.steps_per_detent <= 255
        &&& -self.steps_per_detent < self.accumulator < self.steps_per_detent
        &&& i32::MIN <= self.position <= i32::MAX
    }

    /// The accumulator after the transition to `(a, b)`, before any detent
    /// is taken.
    pub open spec fn next_accumulator(self, a: bool, b: bool) -> int {
        self.accumulator + quad_step(self.last_state, ab_state(a, b))
    }

    /// Feeding `(a, b)` does not move the position past the `i32` range.
    pub open spec fn step_in_range(self, a: bool, b: bool) -> bool {
        &&& self.next_accumulator(a, b) >= self.steps_per_detent ==> self.position < i32::MAX
        &&& self.next_accumulator(a, b) <= -self.steps_per_detent ==> self.position > i32::MIN
    }

    /// One decoder step: the state after sampling `(a, b)`, and the direction
    /// of a completed detent, if any.
    pub open spec fn step(self, a: bool, b: bool) -> (QuadratureView, Option<EncoderDirection>) {
        let acc = self.next_accumulator(a, b);
        let moved = QuadratureView { last_state: ab_state(a, b), ..self };
        if acc >= self.steps_per_detent {
            (QuadratureView { accumulator: 0, position: self.position + 1, ..moved }, Some(EncoderDirection::Clockwise))
        } else if acc <= -self.steps_per_detent {
            (QuadratureView { accumulator: 0, position: self.position - 1, ..moved }, Some(EncoderDirection::CounterClockwise))
        } else {
            (QuadratureView { accumulator: acc, ..moved }, None)
        }
    }
}

/// Pure quadrature decoder with accumulator-based debouncing.
#[derive(Debug, Clone, Copy)]
pub struct QuadratureDecoder {
    last_state: u8,
    accumulator: i32,
    steps_per_detent: i32,
    position: i32,
}

impl View for QuadratureDecoder {
    type V = QuadratureView;

    closed spec fn view(&self) -> QuadratureView {
        QuadratureView {
            last_state: self.last_state as int,
            accumulator: self.accumulator as int,
            steps_per_detent: self.steps_per_detent as int,
            position: self.position as int,
        }
    }
}

impl QuadratureDecoder {
    #[verifier::type_invariant]
    spec fn inv(self) -> bool {
        self@.wf()
    }

    /// Creates a new decoder from the A/B levels at construction time and
    /// the number of valid transitions per detent (`4` for full-step EC11
    /// encoders, `2` for half-step). `steps_per_detent` must be non-zero.
    pub fn new(initial_a: bool, initial_b: bool, steps_per_detent: u8) -> (r: Self)
        requires
            steps_per_detent > 0,
        ensures
            r@ == (QuadratureView {
                last_state: ab_state(initial_a, initial_b),
                accumulator: 0,
                steps_per_detent: steps_per_detent as int,
                position: 0,
            }),
    {
        Self {
            last_state: encode_ab(initial_a, initial_b),
            accumulator: 0,
            steps_per_detent: steps_per_detent as i32,
            position: 0,
        }
    }

    /// Feeds a new A/B sample; returns the direction when the accumulator
    /// reaches a full detent, `None` for partial steps, bounce or invalid
    /// transitions.
    pub fn update(&mut self, a: bool, b: bool) -> (r: Option<EncoderDirection>)
        requires
            old(self)@.step_in_range(a, b),
        ensures
            (final(self)@, r) == old(self)@.step(a, b),
            old(self)@.wf(),
            final(self)@.wf(),
            r == Some(EncoderDirection::Clockwise) ==> final(self)@.position == old(self)@.position + 1,
            r == Some(EncoderDirection::CounterClockwise) ==> final(self)@.position == old(self)@.position - 1,
            r is None ==> final(self)@.position == old(self)@.position,
            // A no-change sample or an invalid 2-bit jump leaves the count alone.
            quad_step(old(self)@.last_state, ab_state(a, b)) == 0 ==> r is None
                && final(self)@.accumulator == old(self)@.accumulator,
    {
        proof {
            use_type_invariant(&*self);
        }
        let state = encode_ab(a, b);
        let step = transition_step(self.last_state * 4 + state);
        let acc = self.accumulator + step as i32;
        self.last_state = state;
        if acc >= self.steps_per_detent {
            self.position = self.position + 1;
            self.accumulator = 0;
            Some(EncoderDirection::Clockwise)
        } else if acc <= -self.steps_per_detent {
            self.position = self.position - 1;
            self.accumulator = 0;
            Some(EncoderDirection::CounterClockwise)
        } else {
            self.accumulator = acc;
            None
        }
    }

    /// Whether feeding `(a, b)` keeps the position inside `i32`: the
    /// condition [`update`](Self::update) needs, for callers that sample the
    /// pins outside verified code.
    pub fn step_fits(&self, a: bool, b: bool) -> (r: bool)
        ensures
            r == self@.step_in_range(a, b),
    {
        proof {
            use_type_invariant(self);
        }
        let state = encode_ab(a, b);
        let step = transition_step(self.last_state * 4 + state);
        let acc = self.accumulator + step as i32;
        (acc < self.steps_per_detent || self.position < i32::MAX) && (acc > -self.steps_per_detent
            || self.position > i32::MIN)
    }

    /// Returns the absolute position (increases clockwise).
    pub fn position(&self) -> (r: i32)
        ensures
            r == self@.position,
    {
        self.position
    }

    /// Overwrites the absolute position and clears the accumulator.
    pub fn set_position(&mut self, position: i32)
        ensures
            final(self)@ == (QuadratureView { position: position as int, accumulator: 0, ..old(self)@ }),
    {
        proof {
            use_type_invariant(&*self);
        }
        self.position = position;
        self.accumulator = 0;
    }

    /// Resets the position to zero and clears the accumulator.
    pub fn reset(&mut self)
        ensures
            final(self)@ == (QuadratureView { position: 0, accumulator: 0, ..old(self)@ }),
    {
        proof {
            use_type_invariant(&*self);
        }
        self.position = 0;
        self.accumulator = 0;
    }
}

/// Bounce does not drift: a transition that completes no detent, followed by
/// the transition straight back, restores the accumulator, the position and
/// the sampled state, and emits nothing.
pub proof fn lemma_bounce_cancels(s: QuadratureView, a: bool, b: bool, back_a: bool, back_b: bool)
    requires
        s.wf(),
        ab_state(back_a, back_b) == s.last_state,
        s.step(a, b).1 is None,
    ensures
        s.step(a, b).0.step(back_a, back_b).1 is None,
        s.step(a, b).0.step(back_a, back_b).0 == s,
{
}

/// One full-step detent: from the resting state `11` with an empty
/// accumulator and four steps per detent, the clockwise cycle
/// `01, 00, 10, 11` emits `Clockwise` exactly on its last sample and moves
/// the position by `+1`; the counter-clockwise cycle `10, 00, 01, 11` emits
/// `CounterClockwise` on its last sample and moves it by `-1`. Both return to
/// the resting state with an empty accumulator.
pub proof fn lemma_full_detent_cycle(s: QuadratureView)
    requires
        s.last_state == 3,
        s.accumulator == 0,
        s.steps_per_detent == 4,
    ensures
        ({
            let (s1, r1) = s.step(false, true);
            let (s2, r2) = s1.step(false, false);
            let (s3, r3) = s2.step(true, false);
            let (s4, r4) = s3.step(true, true);
            &&& r1 is None && r2 is None && r3 is None
            &&& r4 == Some(EncoderDirection::Clockwise)
            &&& s4 == (QuadratureView { position: s.position + 1, ..s })
        }),
        ({
            let (s1, r1) = s.step(true, false);
            let (s2, r2) = s1.step(false, false);
            let (s3, r3) = s2.step(false, true);
            let (s4, r4) = s3.step(true, true);
            &&& r1 is None && r2 is None && r3 is None
            &&& r4 == Some(EncoderDirection::CounterClockwise)
            &&& s4 == (QuadratureView { position: s.position - 1, ..s })
        }),
{
}

/// The decoder state after feeding the A/B samples `samples`, in order.
pub open spec fn quad_run(s: QuadratureView, samples: Seq<(bool, bool)>) -> QuadratureView
    decreases samples.len(),
{
    if samples.len() == 0 {
        s
    } else {
        quad_run(s, samples.drop_last()).step(samples.last().0, samples.last().1).0
    }
}

/// The 2-bit state last sampled, starting from `start`, after `samples`.
pub open spec fn final_state(start: int, samples: Seq<(bool, bool)>) -> int {
    if samples.len() == 0 {
        start
    } else {
        ab_state(samples.last().0, samples.last().1)
    }
}

/// The net half-step count of the path that starts in the 2-bit state
/// `start` and visits `samples`: clockwise transitions count `+1`,
/// counter-clockwise ones `-1`, repeated states and 2-bit jumps `0`.
pub open spec fn net_steps(start: int, samples: Seq<(bool, bool)>) -> int
    decreases samples.len(),
{
    if samples.len() == 0 {
        0
    } else {
        net_steps(start, samples.drop_last()) + quad_step(
            final_state(start, samples.drop_last()),
            ab_state(samples.last().0, samples.last().1),
        )
    }
}

/// While the net half-step count stays strictly inside one detent, feeding
/// samples emits nothing, keeps the position, and the accumulator is the
/// starting accumulator plus the net count.
pub proof fn lemma_run_inside_detent(s: QuadratureView, samples: Seq<(bool, bool)>)
    requires
        forall|j: int|
            0 <= j <= samples.len() ==> -s.steps_per_detent < s.accumulator + #[trigger] net_steps(
                s.last_state,
                samples.take(j),
            ) < s.steps_per_detent,
    ensures
        quad_run(s, samples) == (QuadratureView {
            last_state: final_state(s.last_state, samples),
            accumulator: s.accumulator + net_steps(s.last_state, samples),
            ..s
        }),
    decreases samples.len(),
{
    assert(samples.take(samples.len() as int) =~= samples);
    if samples.len() > 0 {
        let p = samples.drop_last();
        assert forall|j: int|
            0 <= j <= p.len() implies -s.steps_per_detent < s.accumulator + #[trigger] net_steps(
                s.last_state,
                p.take(j),
            ) < s.steps_per_detent by {
            assert(p.take(j) =~= samples.take(j));
        }
        lemma_run_inside_detent(s, p);
        assert(net_steps(s.last_state, samples.take(samples.len() as int)) == net_steps(s.last_state, samples));
    }
}

/// The detent in the large: from any state (in particular right after
/// [`new`](QuadratureDecoder::new), [`set_position`](QuadratureDecoder::set_position),
/// [`reset`](QuadratureDecoder::reset) or a detent, where the accumulator is
/// `0`), while the net half-step count stays inside one detent nothing
/// fires and the position holds; the sample on which it first reaches
/// `+steps_per_detent` fires `Clockwise`, the one on which it first reaches
/// `-steps_per_detent` fires `CounterClockwise`, and any other sample fires
/// nothing.
pub proof fn lemma_detent_on_first_reach(s: QuadratureView, samples: Seq<(bool, bool)>, a: bool, b: bool)
    requires
        forall|j: int|
            0 <= j <= samples.len() ==> -s.steps_per_detent < s.accumulator + #[trigger] net_steps(
                s.last_state,
                samples.take(j),
            ) < s.steps_per_detent,
    ensures
        ({
            let prev = quad_run(s, samples);
            let total = s.accumulator + net_steps(s.last_state, samples.push((a, b)));
            &&& prev.position == s.position
            &&& prev.accumulator == s.accumulator + net_steps(s.last_state, samples)
            &&& prev.step(a, b).1 == if total >= s.steps_per_detent {
                Some(EncoderDirection::Clockwise)
            } else if total <= -s.steps_per_detent {
                Some(EncoderDirection::CounterClockwise)
            } else {
                None
            }
        }),
{
    lemma_run_inside_detent(s, samples);
    assert(samples.push((a, b)).drop_last() =~= samples);
}

/// Thin adapter that drives a [`QuadratureDecoder`] from two digital input
/// pins, which must share one error type.
pub struct QuadratureInput<A, B> {
    pin_a: A,
    pin_b: B,
    decoder: QuadratureDecoder,
}

impl<A, B> View for QuadratureInput<A, B> {
    type V = QuadratureView;

    closed spec fn view(&self) -> QuadratureView {
        self.decoder@
    }
}

impl<A: DigitalRead, B: DigitalRead<Error = A::Error>> QuadratureInput<A, B> {
    /// The wrapped A pin.
    pub closed spec fn pin_a_spec(&self) -> A {
        self.pin_a
    }

    /// The wrapped B pin.
    pub closed spec fn pin_b_spec(&self) -> B {
        self.pin_b
    }

    /// Creates a new adapter. `initial_a` / `initial_b` must match the pins'
    /// levels; `steps_per_detent` must be non-zero (see
    /// [`QuadratureDecoder::new`]).
    pub fn new(pin_a: A, pin_b: B, initial_a: bool, initial_b: bool, steps_per_detent: u8) -> (r: Self)
        requires
            steps_per_detent > 0,
        ensures
            r@ == (QuadratureView {
                last_state: ab_state(initial_a, initial_b),
                accumulator: 0,
                steps_per_detent: steps_per_detent as int,
                position: 0,
            }),
            r.pin_a_spec() == pin_a,
            r.pin_b_spec() == pin_b,
    {
        Self { pin_a, pin_b, decoder: QuadratureDecoder::new(initial_a, initial_b, steps_per_detent) }
    }

    /// Whether `r` is the adapter built from the pins and the outcome `reads`
    /// of their initial reads: the A/B levels seed the decoder; a read error
    /// is handed back.
    pub open spec fn from_reads_spec(
        pin_a: A,
        pin_b: B,
        reads: Result<(bool, bool), A::Error>,
        steps_per_detent: u8,
        r: Result<Self, A::Error>,
    ) -> bool {
        match reads {
            Ok((a, b)) => r matches Ok(input) && input@ == (QuadratureView {
                last_state: ab_state(a, b),
                accumulator: 0,
                steps_per_detent: steps_per_detent as int,
                position: 0,
            }) && input.pin_a_spec() == pin_a && input.pin_b_spec() == pin_b,
            Err(e) => r == Err::<Self, A::Error>(e),
        }
    }

    /// The adapter step for one outcome of reading both pins: the A/B levels
    /// are fed to the decoder; a read error is handed back and changes
    /// nothing.
    pub open spec fn read_step(
        s: QuadratureView,
        reads: Result<(bool, bool), A::Error>,
    ) -> (QuadratureView, Result<Option<EncoderDirection>, A::Error>) {
        match reads {
            Ok((a, b)) => {
                let (next, d) = s.step(a, b);
                (next, Ok(d))
            },
            Err(e) => (s, Err(e)),
        }
    }

    /// Builds an adapter from the pins and the outcome of their initial
    /// reads: the A/B levels seed the decoder; a read error is handed back.
    /// `steps_per_detent` must be non-zero.
    pub fn from_reads(pin_a: A, pin_b: B, reads: Result<(bool, bool), A::Error>, steps_per_detent: u8) -> (r: Result<Self, A::Error>)
        requires
            steps_per_detent > 0,
        ensures
            Self::from_reads_spec(pin_a, pin_b, reads, steps_per_detent, r),
    {
        match reads {
            Ok((a, b)) => Ok(Self::new(pin_a, pin_b, a, b, steps_per_detent)),
            Err(e) => Err(e),
        }
    }

    /// How the two pin reads combine: pin B is read (`read_b` is `Some`)
    /// exactly when pin A's read succeeded; an error of A wins, then an error
    /// of B; otherwise the two levels pair up.
    pub open spec fn combined(
        read_a: Result<bool, A::Error>,
        read_b: Option<Result<bool, A::Error>>,
        reads: Result<(bool, bool), A::Error>,
    ) -> bool {
        match read_a {
            Err(e) => read_b is None && reads == Err::<(bool, bool), A::Error>(e),
            Ok(a) => match read_b {
                Some(Ok(b)) => reads == Ok::<(bool, bool), A::Error>((a, b)),
                Some(Err(e)) => reads == Err::<(bool, bool), A::Error>(e),
                None => false,
            },
        }
    }

    /// Combines the outcome of reading pin A with that of reading pin B,
    /// which is read only when A succeeded: A's error wins, then B's;
    /// otherwise the two levels.
    pub fn combine_reads(read_a: Result<bool, A::Error>, read_b: Option<Result<bool, A::Error>>) -> (r: Result<(bool, bool), A::Error>)
        requires
            (read_a is Ok) == (read_b is Some),
        ensures
            Self::combined(read_a, read_b, r),
    {
        match read_a {
            Err(e) => Err(e),
            Ok(a) => match read_b {
                Some(Ok(b)) => Ok((a, b)),
                Some(Err(e)) => Err(e),
                None => Ok((a, false)),
            },
        }
    }

    /// Creates a new adapter, seeding the decoder from one read of each pin
    /// (A first; B is not read when A fails).
    ///
    /// # Errors
    ///
    /// Returns `Err(e)` if either initial pin read fails.
    pub fn try_from_pins(pin_a: A, pin_b: B, steps_per_detent: u8) -> (r: Result<Self, A::Error>)
        requires
            steps_per_detent > 0,
        ensures
            exists|ra: Result<bool, A::Error>, rb: Option<Result<bool, A::Error>>, reads: Result<(bool, bool), A::Error>, read_a: A, read_b: B|
                #[trigger] Self::combined(ra, rb, reads) && #[trigger] Self::from_reads_spec(
                    read_a,
                    read_b,
                    reads,
                    steps_per_detent,
                    r,
                ),
    {
        let mut pin_a = pin_a;
        let mut pin_b = pin_b;
        let ra = pin_a.read_level();
        let rb = if ra.is_ok() {
            Some(pin_b.read_level())
        } else {
            None
        };
        let reads = Self::combine_reads(ra, rb);
        let ghost read_a = pin_a;
        let ghost read_b = pin_b;
        let r = Self::from_reads(pin_a, pin_b, reads, steps_per_detent);
        assert(Self::combined(ra, rb, reads) && Self::from_reads_spec(read_a, read_b, reads, steps_per_detent, r));
        r
    }

    /// Feeds the outcome of reading both pins through the decoder: the A/B
    /// levels tick it; a read error is handed back and the decoder is left
    /// unchanged.
    pub fn apply_reads(&mut self, reads: Result<(bool, bool), A::Error>) -> (r: Result<Option<EncoderDirection>, A::Error>)
        requires
            reads matches Ok((a, b)) ==> old(self)@.step_in_range(a, b),
        ensures
            (final(self)@, r) == Self::read_step(old(self)@, reads),
            final(self).pin_a_spec() == old(self).pin_a_spec(),
            final(self).pin_b_spec() == old(self).pin_b_spec(),
    {
        match reads {
            Ok((a, b)) => Ok(self.decoder.update(a, b)),
            Err(e) => Err(e),
        }
    }

    /// Reads both pins (A first; B is not read when A fails) and ticks the
    /// internal [`QuadratureDecoder`].
    ///
    /// # Errors
    ///
    /// Returns `Err(e)` if either pin read fails; the decoder is then left
    /// unchanged.
    pub fn update(&mut self) -> (r: Result<Option<EncoderDirection>, A::Error>)
        requires
            forall|a: bool, b: bool| #[trigger] old(self)@.step_in_range(a, b),
        ensures
            exists|ra: Result<bool, A::Error>, rb: Option<Result<bool, A::Error>>, reads: Result<(bool, bool), A::Error>|
                #[trigger] Self::combined(ra, rb, reads) && (final(self)@, r) == Self::read_step(old(self)@, reads),
    {
        let ghost before = self@;
        let ra = self.pin_a.read_level();
        let rb = if ra.is_ok() {
            Some(self.pin_b.read_level())
        } else {
            None
        };
        let reads = Self::combine_reads(ra, rb);
        assert(reads matches Ok((a, b)) ==> before.step_in_range(a, b));
        let r = self.apply_reads(reads);
        assert(Self::combined(ra, rb, reads) && (self@, r) == Self::read_step(before, reads));
        r
    }

    /// Returns the accumulated position.
    pub fn position(&self) -> (r: i32)
        ensures
            r == self@.position,
    {
        self.decoder.position()
    }

    /// Overwrites the position and clears the accumulator.
    pub fn set_position(&mut self, position: i32)
        ensures
            final(self)@ == (QuadratureView { position: position as int, accumulator: 0, ..old(self)@ }),
    {
        self.decoder.set_position(position);
    }

    /// Resets the position to zero and clears the accumulator.
    pub fn reset(&mut self)
        ensures
            final(self)@ == (QuadratureView { position: 0, accumulator: 0, ..old(self)@ }),
    {
        self.decoder.reset();
    }

    /// Returns a shared reference to pin A.
    pub fn pin_a(&self) -> (r: &A)
        ensures
            *r == self.pin_a_spec(),
    {
        &self.pin_a
    }

    /// Returns a shared reference to pin B.
    pub fn pin_b(&self) -> (r: &B)
        ensures
            *r == self.pin_b_spec(),
    {
        &self.pin_b
    }

    /// Returns a mutable reference to pin A.
    pub fn pin_a_mut(&mut self) -> (r: &mut A)
        ensures
            *r == old(self).pin_a_spec(),
            final(self).pin_a_spec() == *final(r),
            final(self).pin_b_spec() == old(self).pin_b_spec(),
            final(self)@ == old(self)@,
    {
        &mut self.pin_a
    }

    /// Returns a mutable reference to pin B.
    pub fn pin_b_mut(&mut self) -> (r: &mut B)
        ensures
            *r == old(self).pin_b_spec(),
            final(self).pin_b_spec() == *final(r),
            final(self).pin_a_spec() == old(self).pin_a_spec(),
            final(self)@ == old(self)@,
    {
        &mut self.pin_b
    }
}

} // verus!
