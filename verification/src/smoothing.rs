//! Sliding-window average smoother for noisy ADC readings:
//! [`SlidingAverage`].
//!
//! A circular buffer of the last `N` samples with a running `u32` sum, so
//! each `push` is O(1). Compose with [`HallSensor`](crate::hall::HallSensor)
//! or any threshold-based evaluator to absorb ADC quantization noise.
use vstd::prelude::*;

verus! {

/// The sum of a sequence of samples.
pub open spec fn seq_sum(s: Seq<u16>) -> int
    decreases s.len(),
{
    if s.len() == 0 {
        0
    } else {
        seq_sum(s.drop_last()) + s.last()
    }
}

/// The sum of a concatenation is the sum of the parts.
pub proof fn lemma_sum_concat(a: Seq<u16>, b: Seq<u16>)
    ensures
        seq_sum(a + b) == seq_sum(a) + seq_sum(b),
    decreases b.len(),
{
    if b.len() == 0 {
        assert(a + b =~= a);
    } else {
        lemma_sum_concat(a, b.drop_last());
        assert((a + b).drop_last() =~= a + b.drop_last());
    }
}

/// A sum of `u16` samples lies within `0..=len * u16::MAX`.
pub proof fn lemma_sum_bounds(s: Seq<u16>)
    ensures
        0 <= seq_sum(s) <= s.len() * 65535,
    decreases s.len(),
{
    if s.len() > 0 {
        lemma_sum_bounds(s.drop_last());
    }
}

/// The sum of a prefix never exceeds the sum of the whole sequence.
pub proof fn lemma_sum_prefix(s: Seq<u16>, i: int)
    requires
        0 <= i <= s.len(),
    ensures
        seq_sum(s.take(i)) <= seq_sum(s),
{
    lemma_sum_concat(s.take(i), s.skip(i));
    assert(s.take(i) + s.skip(i) =~= s);
    lemma_sum_bounds(s.skip(i));
}

/// The window after pushing `sample` into a window of capacity `n`: the
/// oldest sample is dropped once the window is full.
pub open spec fn next_window(w: Seq<u16>, sample: u16, n: nat) -> Seq<u16> {
    if w.len() == n {
        w.drop_first().push(sample)
    } else {
        w.push(sample)
    }
}

/// The (truncated) arithmetic mean of a window; `0` when it is empty.
pub open spec fn average_spec(w: Seq<u16>) -> int {
    if w.len() == 0 {
        0
    } else {
        seq_sum(w) / (w.len() as int)
    }
}

/// The ring buffer behind a [`SlidingAverage`]: `count` samples, oldest
/// first, ending just before the write position `head`, with their running
/// sum.
#[derive(Debug)]
struct Ring {
    buf: Vec<u16>,
    head: usize,
    count: usize,
    sum: u32,
}

/// The logical window of a ring buffer `buf` whose next write position is
/// `head` and which holds `count` samples, oldest first.
pub open spec fn ring_window(buf: Seq<u16>, head: int, count: int) -> Seq<u16> {
    if count < buf.len() {
        buf.take(count)
    } else {
        buf.subrange(head, buf.len() as int) + buf.take(head)
    }
}

impl Ring {
    /// The samples in the ring, oldest first.
    spec fn window(&self) -> Seq<u16> {
        ring_window(self.buf@, self.head as int, self.count as int)
    }

    /// The ring has `n` slots and is consistent with its window and sum.
    spec fn ok(&self, n: nat) -> bool {
        &&& self.buf@.len() == n
        &&& self.count <= n
        &&& self.count <= u32::MAX
        &&& (n > 0 ==> self.head < n)
        &&& (n == 0 ==> self.head == 0)
        &&& (self.count < n ==> self.head == self.count)
        &&& self.sum == seq_sum(self.window())
    }

    /// An empty ring of `n` slots.
    fn empty(n: usize) -> (r: Ring)
        ensures
            r.ok(n as nat),
            r.window() == Seq::<u16>::empty(),
    {
        let buf: Vec<u16> = vec![0; n];
        let r = Ring { buf, head: 0, count: 0, sum: 0 };
        assert(r.window() =~= Seq::<u16>::empty());
        r
    }

    /// Writes `sample` over the oldest slot once full, else into the next
    /// free one.
    fn push_sample(&mut self, sample: u16, n: usize)
        requires
            old(self).ok(n as nat),
            0 < n <= u32::MAX,
            seq_sum(next_window(old(self).window(), sample, n as nat)) <= u32::MAX,
        ensures
            final(self).ok(n as nat),
            final(self).window() == next_window(old(self).window(), sample, n as nat),
        no_unwind
    {
        let ghost w = self.window();
        let ghost buf = self.buf@;
        let ghost h = self.head as int;
        let ghost c = self.count as int;
        let full = self.count == n;
        if full {
            let dropped = self.buf[self.head];
            proof {
                assert(w[0] == dropped);
                lemma_sum_concat(seq![w[0]], w.drop_first());
                assert(seq![w[0]] + w.drop_first() =~= w);
                assert(seq![w[0]].drop_last() =~= Seq::<u16>::empty());
                assert(seq_sum(Seq::<u16>::empty()) == 0);
                assert(seq_sum(seq![w[0]]) == w[0]);
                lemma_sum_bounds(w.drop_first());
            }
            self.sum = self.sum - dropped as u32;
        } else {
            self.count = self.count + 1;
        }
        let head = self.head;
        self.buf[head] = sample;
        proof {
            assert(next_window(w, sample, n as nat).drop_last() =~= (if full {
                w.drop_first()
            } else {
                w
            }));
        }
        self.sum = self.sum + sample as u32;
        self.head = if self.head + 1 == n {
            0
        } else {
            self.head + 1
        };
        proof {
            let nb = self.buf@;
            let nw = next_window(w, sample, n as nat);
            if full {
                if h + 1 < n {
                    assert(nb.subrange(h + 1, n as int) =~= buf.subrange(h + 1, n as int));
                    assert(nb.take(h + 1) =~= buf.take(h).push(sample));
                    assert(w.drop_first() =~= buf.subrange(h + 1, n as int) + buf.take(h));
                } else {
                    assert(nb.subrange(0, n as int) =~= buf.take(h).push(sample));
                    assert(w.drop_first() =~= buf.take(h));
                }
                assert(self.window() =~= nw);
            } else {
                assert(nb.take(c + 1) =~= buf.take(c).push(sample));
                if c + 1 == n {
                    assert(nb.subrange(0, n as int) + nb.take(0) =~= nb.take(c + 1));
                }
                assert(self.window() =~= nw);
            }
        }
    }

    /// The truncated mean of the window; `0` when it is empty.
    fn average(&self, n: usize) -> (r: u16)
        requires
            self.ok(n as nat),
        ensures
            r == average_spec(self.window()),
    {
        if self.count == 0 {
            return 0;
        }
        proof {
            lemma_sum_bounds(self.window());
            let s = seq_sum(self.window());
            let k = self.count as int;
            assert(s / k <= 65535) by (nonlinear_arith)
                requires
                    0 <= s <= k * 65535,
                    k > 0,
            ;
        }
        (self.sum / self.count as u32) as u16
    }
}

/// Fixed-size sliding window average over `u16` samples.
///
/// Keeps the last `N` samples in a ring buffer with a running `u32` sum, and
/// returns the arithmetic mean (truncated) on each [`push`](Self::push). The
/// window fills gradually; averages are over the available samples until it
/// is full. `N` must be greater than zero to push.
#[derive(Debug)]
pub struct SlidingAverage<const N: usize> {
    ring: Ring,
}

impl<const N: usize> View for SlidingAverage<N> {
    type V = Seq<u16>;

    /// The samples in the window, oldest first.
    closed spec fn view(&self) -> Seq<u16> {
        self.ring.window()
    }
}

impl<const N: usize> SlidingAverage<N> {
    /// The ring has `N` slots and is consistent with the window and the
    /// running sum.
    #[verifier::type_invariant]
    spec fn inv(self) -> bool {
        self.ring.ok(N as nat)
    }

    /// Creates a new empty sliding average.
    pub fn new() -> (r: Self)
        ensures
            r@ == Seq::<u16>::empty(),
    {
        Self { ring: Ring::empty(N) }
    }

    /// Pushes a new sample into the window and returns the updated average.
    /// The oldest sample is discarded once the buffer is full.
    ///
    /// Requires `0 < N <= u32::MAX` and that the window's sum after the push
    /// fits the `u32` running sum (always the case for `N <= 65537`).
    pub fn push(&mut self, sample: u16) -> (r: u16)
        requires
            0 < N <= u32::MAX,
            seq_sum(next_window(old(self)@, sample, N as nat)) <= u32::MAX,
        ensures
            final(self)@ == next_window(old(self)@, sample, N as nat),
            final(self)@.len() <= N,
            r == average_spec(final(self)@),
    {
        proof {
            use_type_invariant(&*self);
        }
        self.ring.push_sample(sample, N);
        proof {
            use_type_invariant(&*self);
        }
        self.ring.average(N)
    }

    /// Returns the current average (truncated) without pushing; `0` if no
    /// samples have been pushed yet.
    pub fn average(&self) -> (r: u16)
        ensures
            r == average_spec(self@),
    {
        proof {
            use_type_invariant(self);
        }
        self.ring.average(N)
    }

    /// Returns the number of samples currently in the window.
    pub fn len(&self) -> (r: usize)
        ensures
            r == self@.len(),
            r <= N,
    {
        proof {
            use_type_invariant(self);
        }
        self.ring.count
    }

    /// Returns `true` if no samples have been pushed.
    pub fn is_empty(&self) -> (r: bool)
        ensures
            r == (self@.len() == 0),
    {
        proof {
            use_type_invariant(self);
        }
        self.ring.count == 0
    }

    /// Returns `true` when the window holds exactly `N` samples.
    pub fn is_full(&self) -> (r: bool)
        ensures
            r == (self@.len() == N),
    {
        proof {
            use_type_invariant(self);
        }
        self.ring.count == N
    }
}

impl<const N: usize> Clone for SlidingAverage<N> {
    /// A copy holding the same window.
    fn clone(&self) -> (r: Self)
        ensures
            r@ == self@,
    {
        proof {
            use_type_invariant(self);
        }
        let buf = self.ring.buf.clone();
        proof {
            assert(buf@ =~= self.ring.buf@);
        }
        Self { ring: Ring { buf, head: self.ring.head, count: self.ring.count, sum: self.ring.sum } }
    }
}

impl<const N: usize> Default for SlidingAverage<N> {
    fn default() -> (r: Self)
        ensures
            r@ == Seq::<u16>::empty(),
    {
        Self::new()
    }
}

/// The window after pushing the samples `xs`, in order, into an empty
/// sliding average of size `n`.
pub open spec fn pushes(xs: Seq<u16>, n: nat) -> Seq<u16>
    decreases xs.len(),
{
    if xs.len() == 0 {
        Seq::empty()
    } else {
        next_window(pushes(xs.drop_last(), n), xs.last(), n)
    }
}

/// The window over a whole push history: after pushing `xs` into an empty
/// sliding average of size `n > 0`, the window is the last `min(k, n)`
/// samples pushed, oldest first (so every push returns their floor mean).
pub proof fn lemma_window_is_last_samples(xs: Seq<u16>, n: nat)
    requires
        n > 0,
    ensures
        pushes(xs, n) == xs.subrange(xs.len() - (if xs.len() <= n { xs.len() } else { n }), xs.len() as int),
    decreases xs.len(),
{
    if xs.len() > 0 {
        let m = xs.len();
        let p = xs.drop_last();
        lemma_window_is_last_samples(p, n);
        if m - 1 < n {
            assert(pushes(p, n).len() == m - 1);
            assert(pushes(xs, n) =~= xs.subrange(0, m as int));
        } else {
            assert(pushes(p, n) =~= p.subrange(m - 1 - n, m - 1));
            assert(pushes(p, n).len() == n);
            assert(pushes(xs, n) =~= xs.subrange(m - n, m as int));
        }
    } else {
        assert(pushes(xs, n) =~= xs.subrange(0, 0));
    }
}

/// A window of at most `65537` samples never overflows the `u32` running
/// sum, so for such `N` every push meets its sum precondition.
pub proof fn lemma_small_window_fits(w: Seq<u16>, sample: u16, n: nat)
    requires
        0 < n <= 65537,
        w.len() <= n,
    ensures
        seq_sum(next_window(w, sample, n)) <= u32::MAX,
{
    let nw = next_window(w, sample, n);
    lemma_sum_bounds(nw);
    assert(nw.len() <= n);
    assert(nw.len() * 65535 <= 65537 * 65535) by (nonlinear_arith)
        requires
            nw.len() <= 65537,
    ;
}

} // verus!
