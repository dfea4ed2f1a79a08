//! Fixed-point angles and trigonometry.
//!
//! An angle is an `i64` number of milliradians; `FP_ONE` milliradians make
//! one radian, and `TWO_PI_FP` make a full turn. The cosine and sine are
//! computed with a rational approximation (no tables, no floating point)
//! whose value is pinned exactly by the spec functions below; the verified
//! facts the engine builds on are the range bound of `FP_ONE` and the exact
//! values at the axis angles, `spec_cos(0) == FP_ONE` first of all.

use vstd::arithmetic::div_mod::{
    lemma_fundamental_div_mod, lemma_fundamental_div_mod_converse_mod,
    lemma_mod_division_less_than_divisor, lemma_mod_multiples_vanish, lemma_mod_twice,
    lemma_sub_mod_noop,
};
use vstd::prelude::*;

verus! {

/// Number of fixed-point parts in one unit (one world cell, one radian).
pub const FP_ONE: i64 = 1000;

/// The half turn, in milliradians (pi, rounded to an even milliradian count
/// so that the quarter turn below is exact).
pub const PI_FP: i64 = 3142;

/// The full turn, in milliradians.
pub const TWO_PI_FP: i64 = 6284;

/// The quarter turn, in milliradians.
pub const HALF_PI_FP: i64 = 1571;

/// The remainder Rust's `%` computes on `i64`: the Euclidean remainder for a
/// non-negative dividend, its mirror image for a negative one.
pub open spec fn trunc_rem(a: int, m: int) -> int {
    if a >= 0 {
        a % m
    } else {
        -((-a) % m)
    }
}

/// An angle reduced to one turn: the Euclidean remainder modulo `TWO_PI_FP`,
/// always in `[0, TWO_PI_FP)`.
pub open spec fn norm_angle(a: int) -> int {
    a % (TWO_PI_FP as int)
}

/// Rational quarter-wave approximation of cosine, scaled by `FP_ONE`,
/// for reduced angles `x` in `[0, HALF_PI_FP]`.
pub open spec fn cos_poly(x: int) -> int {
    ((FP_ONE * (PI_FP * PI_FP - 4 * (x * x))) / (PI_FP * PI_FP + x * x))
}

/// Fixed-point cosine of an unbounded milliradian angle, scaled by `FP_ONE`.
pub open spec fn spec_cos(a: int) -> int {
    let r = norm_angle(a);
    if r <= HALF_PI_FP {
        cos_poly(r)
    } else if r <= PI_FP {
        -cos_poly(PI_FP - r)
    } else if r <= PI_FP + HALF_PI_FP {
        -cos_poly(r - PI_FP)
    } else {
        cos_poly(TWO_PI_FP - r)
    }
}

/// Fixed-point sine of an unbounded milliradian angle, scaled by `FP_ONE`.
pub open spec fn spec_sin(a: int) -> int {
    spec_cos(a - HALF_PI_FP)
}

/// The remainder Rust computes is congruent to the Euclidean one and lies
/// strictly within one divisor length of zero.
pub(crate) proof fn lemma_trunc_rem_congruent(a: int, m: int)
    requires
        m > 0,
    ensures
        trunc_rem(a, m) % m == a % m,
        -m < trunc_rem(a, m) < m,
{
    if a >= 0 {
        lemma_mod_division_less_than_divisor(a, m);
        lemma_mod_twice(a, m);
    } else {
        lemma_mod_division_less_than_divisor(-a, m);
        lemma_fundamental_div_mod(-a, m);
        let q = (-a) / m;
        // a == m * (-q) + trunc_rem(a, m), so the two remainders agree.
        assert(a == m * (-q) + trunc_rem(a, m)) by {
            assert(m * (-q) == -(m * q)) by (nonlinear_arith);
        }
        lemma_mod_multiples_vanish(-q, trunc_rem(a, m), m);
    }
}

/// A value already in `[0, m)` is its own Euclidean remainder.
proof fn lemma_small_remainder(x: int, m: int)
    requires
        0 <= x < m,
    ensures
        x % m == x,
{
    lemma_fundamental_div_mod_converse_mod(x, m, 0, x);
}

/// Reduces any milliradian angle to `[0, TWO_PI_FP)`.
pub fn normalize_angle(a: i64) -> (r: i64)
    ensures
        r as int == norm_angle(a as int),
        0 <= r < TWO_PI_FP,
{
    proof {
        lemma_trunc_rem_congruent(a as int, TWO_PI_FP as int);
    }
    let r0: i64 = a % TWO_PI_FP;
    let r: i64 = if r0 < 0 {
        r0 + TWO_PI_FP
    } else {
        r0
    };
    proof {
        lemma_small_remainder(r as int, TWO_PI_FP as int);
        if r0 < 0 {
            lemma_mod_multiples_vanish(1, r0 as int, TWO_PI_FP as int);
        }
    }
    r
}

/// The quarter-wave approximation stays within `[0, FP_ONE]` on its domain
/// and takes the value `FP_ONE` exactly at zero.
proof fn lemma_cos_poly_bounds(x: int)
    requires
        0 <= x <= HALF_PI_FP,
    ensures
        0 <= cos_poly(x) <= FP_ONE,
        x == 0 ==> cos_poly(x) == FP_ONE,
        x == HALF_PI_FP ==> cos_poly(x) == 0,
{
    assert(0 <= cos_poly(x) <= FP_ONE) by (nonlinear_arith)
        requires
            0 <= x <= HALF_PI_FP,
    ;
    if x == 0 {
        assert(cos_poly(0) == FP_ONE) by (nonlinear_arith);
    }
    if x == HALF_PI_FP {
        assert(cos_poly(HALF_PI_FP as int) == 0) by (nonlinear_arith);
    }
}

/// Evaluates the quarter-wave approximation on its domain.
fn cos_poly_fixed(x: i64) -> (r: i64)
    requires
        0 <= x <= HALF_PI_FP,
    ensures
        r as int == cos_poly(x as int),
        0 <= r <= FP_ONE,
{
    proof {
        lemma_cos_poly_bounds(x as int);
        assert(0 <= x * x <= HALF_PI_FP * HALF_PI_FP) by (nonlinear_arith)
            requires
                0 <= x <= HALF_PI_FP,
        ;
    }
    (FP_ONE * (PI_FP * PI_FP - 4 * (x * x))) / (PI_FP * PI_FP + x * x)
}

/// The fixed-point cosine of any angle lies in `[-FP_ONE, FP_ONE]`.
pub proof fn lemma_cos_bounds(a: int)
    ensures
        -FP_ONE <= spec_cos(a) <= FP_ONE,
{
    lemma_mod_division_less_than_divisor(a, TWO_PI_FP as int);
    let r = norm_angle(a);
    if r <= HALF_PI_FP {
        lemma_cos_poly_bounds(r);
    } else if r <= PI_FP {
        lemma_cos_poly_bounds(PI_FP - r);
    } else if r <= PI_FP + HALF_PI_FP {
        lemma_cos_poly_bounds(r - PI_FP);
    } else {
        lemma_cos_poly_bounds(TWO_PI_FP - r);
    }
}

/// Cosine of an exact zero offset is one: the fact behind the fisheye
/// correction being the identity on the screen's center column.
pub proof fn lemma_cos_zero()
    ensures
        spec_cos(0) == FP_ONE,
{
    lemma_small_remainder(0, TWO_PI_FP as int);
    lemma_cos_poly_bounds(0);
}

/// Cosine only depends on the angle reduced to one turn.
pub proof fn lemma_cos_periodic(a: int)
    ensures
        spec_cos(a) == spec_cos(norm_angle(a)),
{
    lemma_mod_division_less_than_divisor(a, TWO_PI_FP as int);
    lemma_small_remainder(norm_angle(a), TWO_PI_FP as int);
}

/// Fixed-point cosine, scaled by `FP_ONE`, of any milliradian angle.
pub fn cos_fixed(a: i64) -> (r: i64)
    ensures
        r as int == spec_cos(a as int),
        -FP_ONE <= r <= FP_ONE,
{
    proof {
        lemma_cos_bounds(a as int);
    }
    let n: i64 = normalize_angle(a);
    if n <= HALF_PI_FP {
        cos_poly_fixed(n)
    } else if n <= PI_FP {
        -cos_poly_fixed(PI_FP - n)
    } else if n <= PI_FP + HALF_PI_FP {
        -cos_poly_fixed(n - PI_FP)
    } else {
        cos_poly_fixed(TWO_PI_FP - n)
    }
}

/// Fixed-point sine, scaled by `FP_ONE`, of any milliradian angle.
pub fn sin_fixed(a: i64) -> (r: i64)
    ensures
        r as int == spec_sin(a as int),
        -FP_ONE <= r <= FP_ONE,
{
    let n: i64 = normalize_angle(a);
    let r: i64 = cos_fixed(n - HALF_PI_FP);
    proof {
        let m = TWO_PI_FP as int;
        // n and a agree modulo the turn, hence so do their quarter-turn
        // shifts, hence so do the cosines of those shifts.
        lemma_mod_twice(a as int, m);
        lemma_sub_mod_noop(n as int, HALF_PI_FP as int, m);
        lemma_sub_mod_noop(a as int, HALF_PI_FP as int, m);
        lemma_cos_periodic(n as int - HALF_PI_FP as int);
        lemma_cos_periodic(a as int - HALF_PI_FP as int);
    }
    r
}

} // verus!
