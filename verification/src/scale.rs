//! Round-to-nearest integer scaling shared by [`AnalogRange`](crate::analog::AnalogRange)
//! and [`RangeMap`](crate::range_map::RangeMap).
use vstd::arithmetic::div_mod::{lemma_div_is_ordered, lemma_div_multiples_vanish_fancy};
use vstd::arithmetic::mul::lemma_mul_inequality;
use vstd::prelude::*;

verus! {

/// `offset * k / span`, rounded to the nearest integer by adding half the
/// divisor before the (flooring) division.
pub open spec fn rounded_scale(offset: int, k: int, span: int) -> int {
    (offset * k + span / 2) / span
}

/// The rounded scale of an offset within `0..=span` lies within `0..=k`,
/// maps `0` to `0` and `span` to `k` exactly.
pub proof fn lemma_rounded_scale_bounds(offset: int, k: int, span: int)
    requires
        0 <= offset <= span,
        0 < span,
        0 <= k,
    ensures
        0 <= rounded_scale(offset, k, span) <= k,
        offset == 0 ==> rounded_scale(offset, k, span) == 0,
        offset == span ==> rounded_scale(offset, k, span) == k,
{
    lemma_mul_inequality(offset, span, k);
    lemma_mul_inequality(0, offset, k);
    assert(span * k == k * span) by (nonlinear_arith);
    lemma_div_multiples_vanish_fancy(k, span / 2, span);
    lemma_div_multiples_vanish_fancy(0, span / 2, span);
    lemma_div_is_ordered(offset * k + span / 2, span * k + span / 2, span);
    lemma_div_is_ordered(span / 2, offset * k + span / 2, span);
    assert(0 * k == 0) by (nonlinear_arith);
    assert(span * 0 + span / 2 == span / 2);
}

/// The rounded scale is monotone in the offset.
pub proof fn lemma_rounded_scale_monotone(o1: int, o2: int, k: int, span: int)
    requires
        0 <= o1 <= o2,
        0 < span,
        0 <= k,
    ensures
        rounded_scale(o1, k, span) <= rounded_scale(o2, k, span),
{
    lemma_mul_inequality(o1, o2, k);
    lemma_div_is_ordered(o1 * k + span / 2, o2 * k + span / 2, span);
}

} // verus!
