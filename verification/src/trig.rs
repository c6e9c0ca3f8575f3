//! Q10 fixed-point trigonometry for the ER/Golgi banding pattern.
//!
//! Angles and function values are integers in units of 1/1024 ("Q10"), so a
//! full circle is about 6434 and a function value of 1024 stands for 1.0.
//! `atan2_q` uses the quadratic arctangent approximation
//! `atan(t) ~= (pi/4)t + 0.273 t (1 - t)` folded over the octants, and
//! `sin_q` uses the Bhaskara I approximation
//! `sin(u) ~= 16 u (pi - u) / (5 pi^2 - 4 u (pi - u))` on a half turn.
//! The contracts state the integer formulas exactly; the formulas themselves
//! approximate the real functions to a few parts in a thousand, which is the
//! banding precision this pixel-art pattern needs.

use vstd::prelude::*;

verus! {

/// One Q10 unit is 1/1024.
pub const Q_ONE: i64 = 1024;
/// pi in Q10 units.
pub const PI_Q: i64 = 3217;
/// pi/2 in Q10 units.
pub const HALF_PI_Q: i64 = 1608;
/// 2 pi in Q10 units.
pub const TWO_PI_Q: i64 = 6434;
/// (pi/4) * 1024, the linear arctangent coefficient.
pub const ATAN_LIN_Q: i64 = 804;
/// 0.273 * 1024, the quadratic arctangent coefficient.
pub const ATAN_QUAD_Q: i64 = 280;
/// 5 * PI_Q^2, the Bhaskara denominator constant.
pub const SIN_DEN_Q: i64 = 51745445;

/// The arctangent polynomial on the first octant: `z` is a slope in
/// [0, 1024] (0 to 1), the result an angle in Q10 units.
pub open spec fn atan_poly_q(z: int) -> int {
    (ATAN_LIN_Q * z) / (Q_ONE as int) + (ATAN_QUAD_Q * z * (Q_ONE - z)) / (Q_ONE * Q_ONE) as int
}

/// The first-quadrant angle of the point `(ax, ay)`, both nonnegative:
/// the octant below 45 degrees uses the polynomial directly, the octant
/// above reflects it about pi/2.
pub open spec fn quadrant_angle_q(ax: int, ay: int) -> int {
    if ax >= ay {
        if ax == 0 {
            0
        } else {
            atan_poly_q(ay * (Q_ONE as int) / ax)
        }
    } else {
        HALF_PI_Q - atan_poly_q(ax * (Q_ONE as int) / ay)
    }
}

/// The full-plane angle of `(x, y)` in Q10 units, in (-PI_Q, PI_Q]: the
/// first-quadrant angle of the magnitudes, reflected into the point's
/// quadrant with the conventions of the usual atan2.
pub open spec fn atan2_q(y: int, x: int) -> int {
    let ax = if x >= 0 { x } else { -x };
    let ay = if y >= 0 { y } else { -y };
    let a1 = quadrant_angle_q(ax, ay);
    if x >= 0 && y >= 0 {
        a1
    } else if x < 0 && y >= 0 {
        PI_Q - a1
    } else if x < 0 {
        -(PI_Q - a1)
    } else {
        -a1
    }
}

/// The Bhaskara sine on a half turn: `u` in [0, PI_Q], result in Q10 units.
pub open spec fn sin_half_q(u: int) -> int {
    16 * (Q_ONE as int) * u * (PI_Q - u) / (SIN_DEN_Q - 4 * u * (PI_Q - u))
}

/// The sine of an angle already reduced to [0, TWO_PI_Q): the second half
/// turn is the negated first.
pub open spec fn sin_q(a: int) -> int {
    if a <= PI_Q {
        sin_half_q(a)
    } else {
        -sin_half_q(a - PI_Q)
    }
}

/// The integer square root: the largest `r` with `r * r <= n`.
pub open spec fn is_isqrt(n: int, r: int) -> bool {
    &&& 0 <= r
    &&& r * r <= n
    &&& (r + 1) * (r + 1) > n
}

/// The integer square root as a mathematical function: the `r` that
/// `is_isqrt` relates to `n` (unique, by `lemma_isqrt_unique`).
pub open spec fn floor_sqrt(n: int) -> int {
    choose|r: int| is_isqrt(n, r)
}

/// Every nonnegative integer has an integer square root, so `floor_sqrt`
/// really is it.
pub proof fn lemma_floor_sqrt(n: int)
    requires
        n >= 0,
    ensures
        is_isqrt(n, floor_sqrt(n)),
    decreases n,
{
    if n == 0 {
        assert(is_isqrt(0, 0));
    } else {
        lemma_floor_sqrt(n - 1);
        let p = floor_sqrt(n - 1);
        if (p + 1) * (p + 1) <= n {
            assert((p + 2) * (p + 2) > n) by (nonlinear_arith)
                requires
                    (p + 1) * (p + 1) > n - 1,
                    (p + 1) * (p + 1) <= n,
                    p >= 0;
            assert(is_isqrt(n, p + 1));
        } else {
            assert(is_isqrt(n, p));
        }
    }
}

/// Two integer square roots of the same number are equal.
pub proof fn lemma_isqrt_unique(n: int, r1: int, r2: int)
    requires
        is_isqrt(n, r1),
        is_isqrt(n, r2),
    ensures
        r1 == r2,
{
    assert(r1 == r2) by (nonlinear_arith)
        requires
            0 <= r1,
            r1 * r1 <= n,
            (r1 + 1) * (r1 + 1) > n,
            0 <= r2,
            r2 * r2 <= n,
            (r2 + 1) * (r2 + 1) > n;
}

/// The integer square root of `n`, by bisection.
pub fn isqrt(n: u64) -> (r: u64)
    ensures
        is_isqrt(n as int, r as int),
        r <= 0xffff_ffff,
{
    let mut lo: u64 = 0;
    let mut hi: u64 = 0x1_0000_0000;
    proof {
        assert((0x1_0000_0000 as int) * (0x1_0000_0000 as int) > n as int) by (nonlinear_arith)
            requires n <= 0xffff_ffff_ffff_ffff;
    }
    while hi - lo > 1
        invariant
            lo < hi <= 0x1_0000_0000,
            lo * lo <= n,
            (hi as int) * (hi as int) > n as int,
        decreases hi - lo,
    {
        let mid: u64 = lo + (hi - lo) / 2;
        proof {
            assert((mid as int) * (mid as int) <= 0xffff_ffff_ffff_ffff) by (nonlinear_arith)
                requires mid < 0x1_0000_0000;
        }
        let sq: u64 = mid * mid;
        if sq <= n {
            lo = mid;
        } else {
            hi = mid;
        }
    }
    lo
}

/// The arctangent polynomial on the first octant.
fn atan_poly(z: i64) -> (r: i64)
    requires
        0 <= z <= Q_ONE,
    ensures
        r == atan_poly_q(z as int),
        0 <= r <= HALF_PI_Q,
{
    proof {
        assert(0 <= ATAN_QUAD_Q * (z as int) * (Q_ONE - z as int) <= 280 * 512 * 512)
            by (nonlinear_arith)
            requires 0 <= z <= 1024;
        vstd::arithmetic::div_mod::lemma_div_pos_is_pos(ATAN_LIN_Q * z as int, Q_ONE as int);
        vstd::arithmetic::div_mod::lemma_div_is_ordered(
            ATAN_LIN_Q * z as int, (804 * 1024) as int, Q_ONE as int);
        vstd::arithmetic::div_mod::lemma_div_pos_is_pos(
            ATAN_QUAD_Q * (z as int) * (Q_ONE - z as int), 1048576);
        vstd::arithmetic::div_mod::lemma_div_is_ordered(
            ATAN_QUAD_Q * (z as int) * (Q_ONE - z as int), (280 * 512 * 512) as int, 1048576int);
    }
    let lin: i64 = (ATAN_LIN_Q * z) / Q_ONE;
    let quad: i64 = (ATAN_QUAD_Q * z * (Q_ONE - z)) / (Q_ONE * Q_ONE);
    lin + quad
}

/// The full-plane Q10 angle of `(x, y)`, as the usual atan2 orders its
/// quadrants: zero along the positive x axis, a half turn along the
/// negative x axis, positive above it and negative below.
pub fn atan2_fixed(y: i64, x: i64) -> (r: i64)
    requires
        -1000000 <= x <= 1000000,
        -1000000 <= y <= 1000000,
    ensures
        r == atan2_q(y as int, x as int),
        -PI_Q <= r <= PI_Q,
{
    let ax: i64 = if x >= 0 { x } else { -x };
    let ay: i64 = if y >= 0 { y } else { -y };
    let a1: i64 = if ax >= ay {
        if ax == 0 {
            0
        } else {
            proof {
                vstd::arithmetic::div_mod::lemma_div_pos_is_pos(ay * Q_ONE as int, ax as int);
                assert(ay * (Q_ONE as int) <= ax * (Q_ONE as int)) by (nonlinear_arith)
                    requires ay <= ax;
                vstd::arithmetic::div_mod::lemma_div_is_ordered(
                    ay * Q_ONE as int, ax * Q_ONE as int, ax as int);
                vstd::arithmetic::div_mod::lemma_div_by_multiple(Q_ONE as int, ax as int);
            }
            atan_poly((ay * Q_ONE) / ax)
        }
    } else {
        proof {
            vstd::arithmetic::div_mod::lemma_div_pos_is_pos(ax * Q_ONE as int, ay as int);
            assert(ax * (Q_ONE as int) <= ay * (Q_ONE as int)) by (nonlinear_arith)
                requires ax <= ay;
            vstd::arithmetic::div_mod::lemma_div_is_ordered(
                ax * Q_ONE as int, ay * Q_ONE as int, ay as int);
            vstd::arithmetic::div_mod::lemma_div_by_multiple(Q_ONE as int, ay as int);
        }
        HALF_PI_Q - atan_poly((ax * Q_ONE) / ay)
    };
    if x >= 0 && y >= 0 {
        a1
    } else if x < 0 && y >= 0 {
        PI_Q - a1
    } else if x < 0 {
        -(PI_Q - a1)
    } else {
        -a1
    }
}

/// The Q10 sine of an angle reduced to [0, TWO_PI_Q).
pub fn sin_fixed(a: i64) -> (r: i64)
    requires
        0 <= a < TWO_PI_Q,
    ensures
        r == sin_q(a as int),
        -Q_ONE - 1 <= r <= Q_ONE + 1,
{
    let (u, neg): (i64, bool) = if a <= PI_Q { (a, false) } else { (a - PI_Q, true) };
    proof {
        assert(0 <= (u as int) * (PI_Q - u as int) <= 1609 * 1608 + 1609) by (nonlinear_arith)
            requires 0 <= u <= 3217;
    }
    let prod: i64 = u * (PI_Q - u);
    let num: i64 = 16 * Q_ONE * prod;
    let den: i64 = SIN_DEN_Q - 4 * prod;
    proof {
        assert(num == 16 * (Q_ONE as int) * (u as int) * (PI_Q - u as int)
            && den == SIN_DEN_Q - 4 * (u as int) * (PI_Q - u as int)) by (nonlinear_arith)
            requires
                num == 16384 * prod,
                den == 51745445 - 4 * prod,
                prod == (u as int) * (PI_Q - u as int);
        vstd::arithmetic::div_mod::lemma_div_pos_is_pos(num as int, den as int);
        vstd::arithmetic::div_mod::lemma_fundamental_div_mod(num as int, den as int);
        vstd::arithmetic::div_mod::lemma_mod_bound(num as int, den as int);
        let q = (num as int) / (den as int);
        assert(num < 1025 * den);
        assert(q < 1025) by (nonlinear_arith)
            requires
                (den as int) * q + (num as int) % (den as int) == num,
                0 <= (num as int) % (den as int),
                num < 1025 * den,
                den > 0,
                q >= 0;
    }
    let v: i64 = num / den;
    if neg {
        -v
    } else {
        v
    }
}

} // verus!
