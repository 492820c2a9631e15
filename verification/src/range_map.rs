//! Clamped linear remap from a `u16` analog reading to a `u8` output:
//! [`RangeMap`].
//!
//! The mapping step for analog-to-PWM behaviour such as dimming a backlight
//! from an LDR reading, kept out of device code and verified here.
use crate::scale::{lemma_rounded_scale_bounds, lemma_rounded_scale_monotone, rounded_scale};
use crate::touch::abs_int;
use vstd::prelude::*;

verus! {

/// `v` clamped to `lo..=hi`.
pub open spec fn clamp_spec(v: int, lo: int, hi: int) -> int {
    if v < lo {
        lo
    } else if v > hi {
        hi
    } else {
        v
    }
}

/// The clamped linear transfer function from `in_min..=in_max` onto
/// `start..=end`, rounded to the nearest output count; `start > end` gives a
/// descending map.
pub open spec fn linear_map(in_min: int, in_max: int, start: int, end: int, reading: int) -> int {
    let offset = clamp_spec(reading, in_min, in_max) - in_min;
    let rounded = rounded_scale(offset, abs_int(end - start), in_max - in_min);
    if end - start < 0 {
        start - rounded
    } else {
        start + rounded
    }
}

/// A clamped linear transfer function from a `u16` input to a `u8` output.
///
/// `map` clamps the reading to `in_min..=in_max` and scales it linearly onto
/// `out_min..=out_max` (swapped by [`inverted`](Self::inverted)), rounding to
/// the nearest output count. `map` never panics; [`new`](Self::new) requires
/// `in_min < in_max`.
#[derive(Debug, Clone, Copy, PartialEq, Eq, Structural, Hash)]
pub struct RangeMap {
    in_min: u16,
    in_max: u16,
    out_min: u8,
    out_max: u8,
    inverted: bool,
}

impl RangeMap {
    #[verifier::type_invariant]
    spec fn inv(self) -> bool {
        self.in_min < self.in_max
    }

    /// Lower input bound.
    pub closed spec fn in_min_spec(self) -> u16 {
        self.in_min
    }

    /// Upper input bound.
    pub closed spec fn in_max_spec(self) -> u16 {
        self.in_max
    }

    /// Output at the lower input bound before inversion.
    pub closed spec fn out_min_spec(self) -> u8 {
        self.out_min
    }

    /// Output at the upper input bound before inversion.
    pub closed spec fn out_max_spec(self) -> u8 {
        self.out_max
    }

    /// Whether the output endpoints are swapped.
    pub closed spec fn inverted_spec(self) -> bool {
        self.inverted
    }

    /// This map with the output endpoints swapped.
    pub closed spec fn flipped(self) -> RangeMap {
        RangeMap { inverted: !self.inverted, ..self }
    }

    /// The output at `in_min`.
    pub open spec fn start(self) -> u8 {
        if self.inverted_spec() {
            self.out_max_spec()
        } else {
            self.out_min_spec()
        }
    }

    /// The output at `in_max`.
    pub open spec fn end(self) -> u8 {
        if self.inverted_spec() {
            self.out_min_spec()
        } else {
            self.out_max_spec()
        }
    }

    /// The value of [`map`](Self::map) on `reading`.
    pub open spec fn map_spec(self, reading: u16) -> int {
        linear_map(self.in_min_spec() as int, self.in_max_spec() as int, self.start() as int, self.end() as int, reading as int)
    }

    /// Creates a new clamped linear range map: `map(in_min) == out_min` and
    /// `map(in_max) == out_max`. `out_min > out_max` gives a descending map.
    /// Requires `in_min < in_max`.
    pub fn new(in_min: u16, in_max: u16, out_min: u8, out_max: u8) -> (r: Self)
        requires
            in_min < in_max,
        ensures
            r.in_min_spec() == in_min,
            r.in_max_spec() == in_max,
            r.out_min_spec() == out_min,
            r.out_max_spec() == out_max,
            !r.inverted_spec(),
    {
        Self { in_min, in_max, out_min, out_max, inverted: false }
    }

    /// Returns an equivalent map with the output endpoints swapped; calling it
    /// twice gives back the same map.
    pub fn inverted(self) -> (r: Self)
        ensures
            r == self.flipped(),
            r.in_min_spec() == self.in_min_spec(),
            r.in_max_spec() == self.in_max_spec(),
            r.out_min_spec() == self.out_min_spec(),
            r.out_max_spec() == self.out_max_spec(),
            r.inverted_spec() == !self.inverted_spec(),
            r.start() == self.end(),
            r.end() == self.start(),
    {
        proof {
            use_type_invariant(&self);
        }
        Self { inverted: !self.inverted, ..self }
    }

    /// Maps a raw reading through the clamped linear transfer function.
    /// Endpoints are exact and the map never panics.
    pub fn map(&self, reading: u16) -> (r: u8)
        ensures
            r == self.map_spec(reading),
            reading <= self.in_min_spec() ==> r == self.start(),
            reading >= self.in_max_spec() ==> r == self.end(),
            self.start() <= self.end() ==> self.start() <= r <= self.end(),
            self.start() > self.end() ==> self.end() <= r <= self.start(),
    {
        proof {
            use_type_invariant(self);
        }
        let (start, end) = if self.inverted {
            (self.out_max, self.out_min)
        } else {
            (self.out_min, self.out_max)
        };
        let clamped = if reading < self.in_min {
            self.in_min
        } else if reading > self.in_max {
            self.in_max
        } else {
            reading
        };
        let offset = (clamped - self.in_min) as u32;
        let in_span = (self.in_max - self.in_min) as u32;
        let out_span = end as i32 - start as i32;
        let out_abs: u32 = if out_span < 0 {
            (-out_span) as u32
        } else {
            out_span as u32
        };
        proof {
            lemma_rounded_scale_bounds(offset as int, out_abs as int, in_span as int);
            assert(offset * out_abs <= 65535 * 255) by (nonlinear_arith)
                requires
                    offset <= 65535,
                    out_abs <= 255,
            ;
        }
        let magnitude = offset * out_abs;
        let rounded = ((magnitude + in_span / 2) / in_span) as i32;
        let scaled = if out_span < 0 {
            -rounded
        } else {
            rounded
        };
        (start as i32 + scaled) as u8
    }
}

/// The map is monotone: non-decreasing when `start <= end`, non-increasing
/// otherwise.
pub proof fn lemma_map_monotone(m: RangeMap, a: u16, b: u16)
    requires
        m.in_min_spec() < m.in_max_spec(),
        a <= b,
    ensures
        m.start() <= m.end() ==> m.map_spec(a) <= m.map_spec(b),
        m.start() > m.end() ==> m.map_spec(a) >= m.map_spec(b),
{
    let lo = m.in_min_spec() as int;
    let hi = m.in_max_spec() as int;
    lemma_rounded_scale_monotone(
        clamp_spec(a as int, lo, hi) - lo,
        clamp_spec(b as int, lo, hi) - lo,
        abs_int(m.end() - m.start()),
        hi - lo,
    );
}

/// Inverting twice gives back the same map exactly, and inversion swaps
/// the output endpoints.
pub proof fn lemma_double_inversion(m: RangeMap)
    ensures
        m.flipped().flipped() == m,
        m.flipped().start() == m.end(),
        m.flipped().end() == m.start(),
{
}

} // verus!
