//! Truncating fixed-point arithmetic.
//!
//! The frame transform and the sensor calibration both scale integer
//! readings by rational factors and truncate the result toward zero.
//! This module defines that division once, proves its bounds, and proves
//! the near-linearity that the transform's contract relies on.

use vstd::prelude::*;

verus! {

use vstd::arithmetic::div_mod::{
    lemma_div_multiples_vanish, lemma_div_pos_is_pos, lemma_fundamental_div_mod,
    lemma_hoist_over_denominator, lemma_multiply_divide_lt, lemma_remainder_lower,
    lemma_remainder_upper,
};
use vstd::arithmetic::mul::lemma_mul_is_commutative;

/// Quotient of `n / d` rounded toward zero (`d > 0`), as opposed to the
/// Euclidean rounding of `/` in specifications.
pub open spec fn div_trunc(n: int, d: int) -> int {
    if n >= 0 {
        n / d
    } else {
        -((-n) / d)
    }
}

/// `v` clamped into `[lo, hi]`.
pub open spec fn clamp(v: int, lo: int, hi: int) -> int {
    if v < lo {
        lo
    } else if v > hi {
        hi
    } else {
        v
    }
}

/// Truncating division is antisymmetric in the numerator.
pub proof fn lemma_div_trunc_neg(n: int, d: int)
    requires
        d > 0,
    ensures
        div_trunc(-n, d) == -div_trunc(n, d),
{
    if n == 0 {
        vstd::arithmetic::div_mod::lemma_div_of0(d);
    }
}

/// The truncated quotient times the divisor stays within one divisor of
/// the numerator, on the zero side of it.
pub proof fn lemma_div_trunc_bounds(n: int, d: int)
    requires
        d > 0,
    ensures
        n >= 0 ==> n - d < div_trunc(n, d) * d <= n,
        n < 0 ==> n <= div_trunc(n, d) * d < n + d,
        n >= 0 ==> div_trunc(n, d) >= 0,
        n < 0 ==> div_trunc(n, d) <= 0,
{
    if n >= 0 {
        lemma_fundamental_div_mod(n, d);
        lemma_remainder_upper(n, d);
        lemma_remainder_lower(n, d);
        lemma_div_pos_is_pos(n, d);
        lemma_mul_is_commutative(d, n / d);
    } else {
        lemma_fundamental_div_mod(-n, d);
        lemma_remainder_upper(-n, d);
        lemma_remainder_lower(-n, d);
        lemma_div_pos_is_pos(-n, d);
        lemma_mul_is_commutative(d, (-n) / d);
        assert((-((-n) / d)) * d == -(((-n) / d) * d)) by (nonlinear_arith);
    }
}

/// Division of an exact multiple is exact: `div_trunc(a * d, d) == a`.
pub proof fn lemma_div_trunc_exact(a: int, d: int)
    requires
        d > 0,
    ensures
        div_trunc(a * d, d) == a,
{
    if a * d >= 0 {
        if a >= 0 {
            lemma_div_multiples_vanish(a, d);
            lemma_mul_is_commutative(a, d);
        } else {
            // a < 0 with a * d >= 0 and d > 0 forces a * d == 0, i.e. a == 0.
            assert(a * d < 0) by (nonlinear_arith)
                requires
                    a < 0,
                    d > 0,
            ;
        }
    } else {
        assert(-(a * d) == (-a) * d) by (nonlinear_arith);
        lemma_div_multiples_vanish(-a, d);
        lemma_mul_is_commutative(-a, d);
    }
}

/// Scaling a numerator scales the truncated quotient to within one
/// factor: `div_trunc(b * k, d)` differs from `div_trunc(b, d) * k` by
/// strictly less than `|k|` (and not at all when `k == 0`). This is the
/// 1-unit truncation error of the unit quotient, amplified by the
/// factor's magnitude.
pub proof fn lemma_div_trunc_scaled(b: int, k: int, d: int)
    requires
        d > 0,
    ensures
        k == 0 ==> div_trunc(b * k, d) == div_trunc(b, d) * k,
        k > 0 ==> div_trunc(b, d) * k - k < div_trunc(b * k, d) < div_trunc(b, d) * k + k,
        k < 0 ==> div_trunc(b, d) * k + k < div_trunc(b * k, d) < div_trunc(b, d) * k - k,
{
    if k == 0 {
        assert(b * k == 0) by (nonlinear_arith)
            requires
                k == 0,
        ;
        vstd::arithmetic::div_mod::lemma_div_of0(d);
        assert(div_trunc(b, d) * 0 == 0) by (nonlinear_arith);
    } else if k > 0 {
        lemma_div_trunc_scaled_pos(b, k, d);
    } else {
        // A negative factor is the positive case on the mirrored
        // numerator: b * k == (-b) * (-k).
        lemma_div_trunc_scaled_pos(-b, -k, d);
        assert((-b) * (-k) == b * k) by (nonlinear_arith);
        lemma_div_trunc_neg(b, d);
        assert((-div_trunc(b, d)) * (-k) == div_trunc(b, d) * k) by (nonlinear_arith);
    }
}

/// The positive-factor case of `lemma_div_trunc_scaled`.
proof fn lemma_div_trunc_scaled_pos(b: int, k: int, d: int)
    requires
        d > 0,
        k > 0,
    ensures
        div_trunc(b, d) * k - k < div_trunc(b * k, d) < div_trunc(b, d) * k + k,
{
    if b >= 0 {
        lemma_div_trunc_scaled_nonneg(b, k, d);
    } else {
        lemma_div_trunc_scaled_nonneg(-b, k, d);
        assert((-b) * k == -(b * k)) by (nonlinear_arith);
        lemma_div_trunc_neg(b * k, d);
        lemma_div_trunc_neg(b, d);
        assert((-div_trunc(b, d)) * k == -(div_trunc(b, d) * k)) by (nonlinear_arith);
    }
}

/// The non-negative-numerator case of `lemma_div_trunc_scaled`.
proof fn lemma_div_trunc_scaled_nonneg(b: int, k: int, d: int)
    requires
        d > 0,
        k > 0,
        b >= 0,
    ensures
        div_trunc(b, d) * k <= div_trunc(b * k, d) < div_trunc(b, d) * k + k,
{
    let q = b / d;
    let r = b % d;
    lemma_fundamental_div_mod(b, d);
    lemma_remainder_upper(b, d);
    lemma_remainder_lower(b, d);
    assert(b * k >= 0) by (nonlinear_arith)
        requires
            b >= 0,
            k > 0,
    ;
    // b * k == (q * k) * d + r * k, so hoisting q * k over the denominator
    // gives (b * k) / d == q * k + (r * k) / d.
    assert(b * k == r * k + (q * k) * d) by (nonlinear_arith)
        requires
            b == d * q + r,
    ;
    assert(r * k >= 0) by (nonlinear_arith)
        requires
            r >= 0,
            k > 0,
    ;
    lemma_hoist_over_denominator(r * k, q * k, d as nat);
    lemma_div_pos_is_pos(r * k, d);
    // r < d gives r * k <= (d - 1) * k < d * k, so (r * k) / d < k.
    assert(r * k < d * k) by (nonlinear_arith)
        requires
            r < d,
            k > 0,
    ;
    lemma_multiply_divide_lt(r * k, d, k);
}

/// Runs `div_trunc` on machine integers: division of `n` by positive `d`,
/// rounding toward zero.
pub fn div_trunc_i128(n: i128, d: i128) -> (q: i128)
    requires
        d > 0,
        n > i128::MIN,
    ensures
        q == div_trunc(n as int, d as int),
{
    proof {
        if n >= 0 {
            lemma_div_pos_is_pos(n as int, d as int);
            vstd::arithmetic::div_mod::lemma_div_nonincreasing(n as int, d as int);
        } else {
            lemma_div_pos_is_pos(-(n as int), d as int);
            vstd::arithmetic::div_mod::lemma_div_nonincreasing(-(n as int), d as int);
        }
    }
    match n.checked_div(d) {
        Some(q) => q,
        None => {
            // d > 0 rules the two failure modes out: the divisor is not
            // zero and the quotient's magnitude never exceeds |n|.
            proof {
                assert(false);
            }
            0
        },
    }
}

/// Clamps an i128 into the i32 range, the saturating narrowing the
/// transform applies to a pointer delta.
pub fn clamp_to_i32(v: i128) -> (r: i32)
    ensures
        r == clamp(v as int, i32::MIN as int, i32::MAX as int),
{
    if v < i32::MIN as i128 {
        i32::MIN
    } else if v > i32::MAX as i128 {
        i32::MAX
    } else {
        v as i32
    }
}

} // verus!
