//! Truncating integer interpolation between two color-channel values.
//!
//! Gradients interpolate across strip positions and color transitions
//! interpolate across time steps; both use the same arithmetic:
//! `start + step * (end - start) / den`, with the division truncating toward
//! zero.

use vstd::prelude::*;

use vstd::arithmetic::div_mod::lemma_div_by_multiple;
use vstd::arithmetic::div_mod::lemma_div_is_ordered;
use vstd::arithmetic::div_mod::lemma_div_multiples_vanish;
use vstd::arithmetic::div_mod::lemma_div_multiples_vanish_fancy;
use vstd::arithmetic::div_mod::lemma_div_pos_is_pos;
use vstd::arithmetic::div_mod::lemma_fundamental_div_mod;
use vstd::arithmetic::mul::lemma_mul_inequality;
use vstd::arithmetic::mul::lemma_mul_is_commutative;
use vstd::arithmetic::mul::lemma_mul_is_distributive_sub_other_way;
use vstd::arithmetic::mul::lemma_mul_nonnegative;
use vstd::arithmetic::mul::lemma_mul_unary_negation;

verus! {

/// Integer division truncating toward zero, for a positive divisor.
pub open spec fn div_trunc(a: int, b: int) -> int {
    if a >= 0 {
        a / b
    } else {
        -((-a) / b)
    }
}

/// The value `step / den` of the way along a straight line from `start` to
/// `end`: `start + step * (end - start) / den`, truncating toward zero.
pub open spec fn spec_interpolate(start: u8, end: u8, step: int, den: int) -> int {
    start + div_trunc(step * (end - start), den)
}

/// `0 <= step * diff / den <= diff` for `0 <= step <= den`.
pub proof fn lemma_scaled_fraction_bounds(step: int, diff: int, den: int)
    requires
        0 <= step <= den,
        0 <= diff,
        1 <= den,
    ensures
        0 <= step * diff / den <= diff,
{
    lemma_mul_nonnegative(step, diff);
    lemma_div_pos_is_pos(step * diff, den);
    lemma_mul_inequality(step, den, diff);
    lemma_div_is_ordered(step * diff, den * diff, den);
    lemma_mul_is_commutative(den, diff);
    lemma_div_by_multiple(diff, den);
}

/// An interpolated value lies between its two endpoints.
pub proof fn lemma_interpolate_in_range(start: u8, end: u8, step: int, den: int)
    requires
        0 <= step <= den,
        1 <= den,
    ensures
        start <= end ==> start <= spec_interpolate(start, end, step, den) <= end,
        end <= start ==> end <= spec_interpolate(start, end, step, den) <= start,
{
    if start <= end {
        lemma_mul_nonnegative(step, end - start);
        lemma_scaled_fraction_bounds(step, end - start, den);
    } else {
        lemma_mul_unary_negation(step, start - end);
        assert(step * (end - start) == -(step * (start - end)));
        lemma_mul_nonnegative(step, start - end);
        lemma_scaled_fraction_bounds(step, start - end, den);
    }
}

/// At `step == 0` the interpolation is `start` exactly.
pub proof fn lemma_interpolate_first(start: u8, end: u8, den: int)
    requires
        1 <= den,
    ensures
        spec_interpolate(start, end, 0, den) == start,
{
    lemma_div_pos_is_pos(0, den);
    lemma_div_is_ordered(0 * (end - start), 0, den);
}

/// At `step == den` the interpolation reaches `end` exactly.
pub proof fn lemma_interpolate_last(start: u8, end: u8, den: int)
    requires
        1 <= den,
    ensures
        spec_interpolate(start, end, den, den) == end,
{
    if start <= end {
        lemma_div_multiples_vanish(end - start, den);
    } else {
        lemma_mul_unary_negation(den, start - end);
        assert(den * (end - start) == -(den * (start - end)));
        lemma_div_multiples_vanish(start - end, den);
    }
}

/// `(den - 1) * d / den == d - ceil(d / den)` for `d >= 0`, where
/// `ceil(d / den)` is written `(d + den - 1) / den`.
proof fn lemma_mul_pred_div(d: int, den: int)
    requires
        0 <= d,
        1 <= den,
    ensures
        (den - 1) * d / den == d - (d + den - 1) / den,
{
    let q = d / den;
    let r = d % den;
    lemma_fundamental_div_mod(d, den);
    assert(d == den * q + r);
    lemma_mul_is_distributive_sub_other_way(d, den, 1);
    assert((den - 1) * d == den * d - 1 * d);
    if r == 0 {
        assert(den * d - d == den * (d - q)) by {
            vstd::arithmetic::mul::lemma_mul_is_distributive_sub(den, d, q);
        }
        lemma_div_multiples_vanish(d - q, den);
        assert((den - 1) * d / den == d - q);
        assert(d + den - 1 == den * q + (den - 1));
        lemma_div_multiples_vanish_fancy(q, den - 1, den);
        assert((d + den - 1) / den == q);
    } else {
        assert(den * (d - q - 1) == den * d - den * q - den) by {
            vstd::arithmetic::mul::lemma_mul_is_distributive_sub(den, d, q + 1);
            vstd::arithmetic::mul::lemma_mul_is_distributive_add(den, q, 1);
            assert(d - q - 1 == d - (q + 1));
        }
        assert(den * d - d == den * (d - q - 1) + (den - r));
        lemma_div_multiples_vanish_fancy(d - q - 1, den - r, den);
        assert((den - 1) * d / den == d - q - 1);
        assert(d + den - 1 == den * (q + 1) + (r - 1)) by {
            vstd::arithmetic::mul::lemma_mul_is_distributive_add(den, q, 1);
        }
        lemma_div_multiples_vanish_fancy(q + 1, r - 1, den);
        assert((d + den - 1) / den == q + 1);
    }
}

/// One step before the end, the interpolation is exactly one truncation step
/// away from `end`: the distance is `|end - start| / den`, rounded up.
pub proof fn lemma_interpolate_penultimate(start: u8, end: u8, den: int)
    requires
        1 <= den,
    ensures
        start <= end ==> spec_interpolate(start, end, den - 1, den)
            == end - (end - start + den - 1) / den,
        end <= start ==> spec_interpolate(start, end, den - 1, den)
            == end + (start - end + den - 1) / den,
{
    if start <= end {
        lemma_mul_pred_div(end - start, den);
    } else {
        lemma_mul_unary_negation(den - 1, start - end);
        assert((den - 1) * (end - start) == -((den - 1) * (start - end)));
        lemma_mul_nonnegative(den - 1, start - end);
        lemma_mul_pred_div(start - end, den);
    }
}

/// Returns the color-channel value `step / den` of the way from `start` to
/// `end`, truncating toward zero.
pub fn interpolate(start: u8, end: u8, step: usize, den: usize) -> (r: u8)
    requires
        1 <= den,
        step <= den,
    ensures
        r as int == spec_interpolate(start, end, step as int, den as int),
{
    proof {
        lemma_interpolate_in_range(start, end, step as int, den as int);
    }
    if end >= start {
        let diff = (end - start) as u128;
        proof {
            lemma_mul_nonnegative(step as int, diff as int);
            lemma_scaled_fraction_bounds(step as int, diff as int, den as int);
            vstd::arithmetic::mul::lemma_mul_upper_bound(step as int, usize::MAX as int, diff as int, 255);
        }
        let q = (step as u128 * diff) / (den as u128);
        (start as u128 + q) as u8
    } else {
        let diff = (start - end) as u128;
        proof {
            lemma_mul_nonnegative(step as int, diff as int);
            lemma_scaled_fraction_bounds(step as int, diff as int, den as int);
            vstd::arithmetic::mul::lemma_mul_upper_bound(step as int, usize::MAX as int, diff as int, 255);
            lemma_mul_unary_negation(step as int, diff as int);
            assert(step as int * (end - start) == -(step as int * diff as int));
        }
        let q = (step as u128 * diff) / (den as u128);
        (start as u128 - q) as u8
    }
}

} // verus!
