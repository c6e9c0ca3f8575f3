//! Fixed-point helpers shared by the layout generator and the camera.
//!
//! World scalars are integers in milli-units (thousandths). Division here is
//! truncating division toward zero, the rounding the rest of the library
//! states its contracts over; `scale_div` is its mathematical form.

use vstd::prelude::*;

verus! {

/// Numerator of cos(45 deg) = sin(45 deg) ~= 0.707107 over `DIAG_DEN`.
pub const DIAG_NUM: i64 = 707107;
/// Denominator of the diagonal factor.
pub const DIAG_DEN: i64 = 1000000;

/// Truncating division toward zero of `n` by a positive divisor `d`.
pub open spec fn scale_div(n: int, d: int) -> int {
    if n >= 0 {
        n / d
    } else {
        -((-n) / d)
    }
}

/// Clamp `v` into the closed interval `[lo, hi]`.
pub open spec fn clamp_int(v: int, lo: int, hi: int) -> int {
    if v < lo {
        lo
    } else if v > hi {
        hi
    } else {
        v
    }
}

/// Truncating division shrinks: the quotient lies between zero and the
/// dividend.
pub proof fn lemma_scale_div_bounds(n: int, d: int)
    requires
        d > 0,
    ensures
        n >= 0 ==> 0 <= scale_div(n, d) <= n,
        n < 0 ==> n <= scale_div(n, d) <= 0,
{
    if n >= 0 {
        vstd::arithmetic::div_mod::lemma_div_pos_is_pos(n, d);
        vstd::arithmetic::div_mod::lemma_div_nonincreasing(n, d);
    } else {
        vstd::arithmetic::div_mod::lemma_div_pos_is_pos(-n, d);
        vstd::arithmetic::div_mod::lemma_div_nonincreasing(-n, d);
    }
}

/// A product of bounded factors is bounded by the product of the bounds.
pub proof fn lemma_mul_abs_bound(a: int, abound: int, b: int, bbound: int)
    requires
        -abound <= a <= abound,
        -bbound <= b <= bbound,
    ensures
        -(abound * bbound) <= a * b <= abound * bbound,
{
    assert(-(abound * bbound) <= a * b <= abound * bbound) by (nonlinear_arith)
        requires
            -abound <= a <= abound,
            -bbound <= b <= bbound,
    {
    }
}

/// `n / d` truncated toward zero, for a positive divisor.
pub fn div_trunc(n: i64, d: i64) -> (r: i64)
    requires
        d > 0,
        n > i64::MIN,
    ensures
        r == scale_div(n as int, d as int),
{
    if n >= 0 {
        n / d
    } else {
        let m: i64 = -n;
        -(m / d)
    }
}

/// `(a * b) / d` truncated toward zero, for a positive divisor.
pub fn mul_div(a: i64, b: i64, d: i64) -> (r: i64)
    requires
        d > 0,
        -0x7fff_ffff_ffff_ffff <= a * b <= 0x7fff_ffff_ffff_ffff,
    ensures
        r == scale_div(a * b, d as int),
{
    let p: i64 = a * b;
    div_trunc(p, d)
}

} // verus!
