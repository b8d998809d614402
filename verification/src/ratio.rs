//! The exact arithmetic under the slider: normalized ratios as
//! rationals over a range's span, and the scaled division that turns a
//! pointer delta into a ratio delta.

use vstd::arithmetic::div_mod::{
    lemma_div_is_ordered, lemma_div_multiples_vanish, lemma_div_nonincreasing,
    lemma_div_pos_is_pos,
};
use vstd::math::abs;
use vstd::prelude::*;

verus! {

/// Largest magnitude, in thousandths of a unit, accepted for a
/// configured parameter bound.
pub const VALUE_LIMIT: i64 = 1_000_000_000_000;

/// Largest magnitude accepted for a pointer delta, a scroll magnitude,
/// or a measured element size, in that input's own unit.
pub const INPUT_LIMIT: i64 = 1_000_000;

/// A slider's normalized position as an exact rational `num / span`.
///
/// `span` is the width of the configured range in thousandths of a
/// unit, so `num` is also the exact offset of the current value above
/// the range's minimum.  `num == 0` sits at the minimum, `num == span`
/// at the maximum.
#[derive(Clone, Copy, Debug, PartialEq, Eq, Structural)]
pub struct Ratio {
    pub num: i64,
    pub span: i64,
}

impl Ratio {
    pub open spec fn wf(self) -> bool {
        &&& 0 < self.span <= 2 * VALUE_LIMIT
        &&& 0 <= self.num <= self.span
    }

    /// The position with the same denominator sitting at the range's
    /// minimum.
    pub open spec fn at_min(self) -> bool {
        self.num == 0
    }

    /// The position with the same denominator sitting at the range's
    /// maximum.
    pub open spec fn at_max(self) -> bool {
        self.num == self.span
    }
}

/// Division truncating toward zero: the quotient that dividing
/// magnitudes and reapplying the sign produces.  Agrees with the
/// mathematical (Euclidean) quotient on non-negative dividends.
pub open spec fn tdiv(a: int, b: int) -> int {
    if a >= 0 {
        a / b
    } else {
        -((-a) / b)
    }
}

/// `x` held to the closed interval `[lo, hi]`.
pub open spec fn clamped(x: int, lo: int, hi: int) -> int {
    if x < lo {
        lo
    } else if x > hi {
        hi
    } else {
        x
    }
}

/// The scaled delta `dd * span / den`, truncated toward zero.
///
/// This is the one division the interpreters perform: a pointer moved
/// `dd` of `den` available pixels (or a scroll covered `dd` of `den`
/// percent units), so the ratio numerator moves by that fraction of
/// `span`.
pub fn scale_delta(dd: i64, span: i64, den: i64) -> (r: i64)
    requires
        1 <= den <= INPUT_LIMIT,
        0 < span <= 2 * VALUE_LIMIT,
        -5 * INPUT_LIMIT <= dd <= 5 * INPUT_LIMIT,
        abs(dd as int) * span <= den * 0x7fff_ffff_ffff_ffff,
    ensures
        r == tdiv(dd * span, den as int),
        abs(r as int) == (abs(dd as int) * span) / (den as int),
        dd >= 0 ==> 0 <= r <= dd * span,
        dd < 0 ==> dd * span <= r <= 0,
{
    let neg: bool = dd < 0;
    let mag: u64 = if neg {
        (-dd) as u64
    } else {
        dd as u64
    };
    assert(mag == abs(dd as int));
    proof {
        assert(mag * span <= 10_000_000_000_000_000_000) by (nonlinear_arith)
            requires
                0 <= mag <= 5_000_000,
                0 <= span <= 2i64 * 1_000_000_000_000,
        ;
    }
    let prod: u128 = (mag as u128) * (span as u128);
    let q: u128 = prod / (den as u128);
    proof {
        lemma_div_is_ordered(prod as int, den * 0x7fff_ffff_ffff_ffff, den as int);
        lemma_div_multiples_vanish(0x7fff_ffff_ffff_ffff, den as int);
        lemma_div_pos_is_pos(prod as int, den as int);
        lemma_div_nonincreasing(prod as int, den as int);
        if dd < 0 {
            assert(dd * span == -(mag * span)) by (nonlinear_arith)
                requires
                    dd < 0,
                    mag == -(dd as int),
            ;
        }
    }
    let qi: i64 = q as i64;
    if neg {
        -qi
    } else {
        qi
    }
}

/// The portion `travel * num / span` of a travel distance, truncated
/// toward zero: where along its track a handle at ratio `num / span`
/// sits.
pub fn ratio_portion(travel: i64, num: i64, span: i64) -> (r: i64)
    requires
        0 < span <= 2 * VALUE_LIMIT,
        0 <= num <= span,
        -INPUT_LIMIT <= travel <= INPUT_LIMIT,
    ensures
        r == tdiv(travel * num, span as int),
        travel >= 0 ==> 0 <= r <= travel,
        travel < 0 ==> travel <= r <= 0,
{
    let neg: bool = travel < 0;
    let mag: u64 = if neg {
        (-travel) as u64
    } else {
        travel as u64
    };
    assert(mag == abs(travel as int));
    proof {
        assert(mag * num <= mag * span <= 1_000_000i64 * 2_000_000_000_000) by (nonlinear_arith)
            requires
                0 <= mag <= 1_000_000,
                0 <= num <= span <= 2i64 * 1_000_000_000_000,
        ;
    }
    let prod: u128 = (mag as u128) * (num as u128);
    let q: u128 = prod / (span as u128);
    proof {
        lemma_div_is_ordered(prod as int, mag * span, span as int);
        lemma_div_multiples_vanish(mag as int, span as int);
        lemma_div_pos_is_pos(prod as int, span as int);
        if travel < 0 {
            assert(travel * num == -(mag * num)) by (nonlinear_arith)
                requires
                    travel < 0,
                    mag == -(travel as int),
            ;
        }
    }
    let qi: i64 = q as i64;
    if neg {
        -qi
    } else {
        qi
    }
}

/// `x + d` held to `[0, span]`, the clamp every ratio update passes
/// through.
pub fn clamp_add(x: i64, d: i64, span: i64) -> (r: i64)
    requires
        0 < span <= 2 * VALUE_LIMIT,
        0 <= x <= span,
        -0x7fff_ffff_ffff_ffff + 2 * VALUE_LIMIT <= d <= 0x7fff_ffff_ffff_ffff - 2 * VALUE_LIMIT,
    ensures
        r == clamped(x + d, 0, span as int),
        0 <= r <= span,
{
    let sum: i64 = x + d;
    if sum < 0 {
        0
    } else if sum > span {
        span
    } else {
        sum
    }
}

} // verus!
