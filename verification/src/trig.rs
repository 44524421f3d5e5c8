//! Sine and cosine of an angle in degrees, the only transcendental
//! operations the kernel needs. The angle is reduced exactly modulo a full
//! turn and folded into one eighth of a turn, so whole quarter turns give
//! exact results; inside the eighth of a turn a short alternating power
//! series in radians is evaluated in fixed point.

use vstd::prelude::*;
use vstd::arithmetic::div_mod::lemma_fundamental_div_mod;
use vstd::arithmetic::div_mod::lemma_fundamental_div_mod_converse;
use vstd::arithmetic::div_mod::lemma_mod_division_less_than_divisor;
use vstd::arithmetic::div_mod::lemma_multiply_divide_lt;
use crate::scalar::SCALE;
use crate::scalar::Scalar;
use crate::scalar::fx_add;
use crate::scalar::fx_mul;
use crate::scalar::fx_neg;
use crate::scalar::fx_sub;
use crate::scalar::lemma_fx_mul_zero;

verus! {

/// A quarter turn in raw degree units.
pub const DEG90: i64 = 386547056640;

/// An eighth of a turn in raw degree units.
pub const DEG45: i64 = 193273528320;

/// A full turn in raw degree units.
pub const DEG360: i64 = 1546188226560;

/// Radians per degree in raw units, rounded to nearest.
pub const RAD_PER_DEG: i64 = 74961321;

/// One half in raw units (exact).
pub const HALF: i64 = 2147483648;

/// One sixth in raw units, rounded to nearest.
pub const SIXTH: i64 = 715827883;

/// One twenty-fourth in raw units, rounded to nearest.
pub const INV24: i64 = 178956971;

/// The reciprocal of 120 in raw units, rounded to nearest.
pub const INV120: i64 = 35791394;

/// The reciprocal of 720 in raw units, rounded to nearest.
pub const INV720: i64 = 5965232;

/// The reciprocal of 5040 in raw units, rounded to nearest.
pub const INV5040: i64 = 852176;

/// The reciprocal of 40320 in raw units, rounded to nearest.
pub const INV40320: i64 = 106522;

/// Degrees to radians on raw values.
pub open spec fn spec_to_rad(r: int) -> int {
    fx_mul(r, RAD_PER_DEG as int)
}

/// The sine power series `x - x^3/6 + x^5/120 - x^7/5040` on raw radians.
pub open spec fn spec_sin_poly(x: int) -> int {
    let x2 = fx_mul(x, x);
    let x3 = fx_mul(x2, x);
    let x5 = fx_mul(x3, x2);
    let x7 = fx_mul(x5, x2);
    fx_sub(
        fx_add(fx_sub(x, fx_mul(x3, SIXTH as int)), fx_mul(x5, INV120 as int)),
        fx_mul(x7, INV5040 as int),
    )
}

/// The cosine power series `1 - x^2/2 + x^4/24 - x^6/720 + x^8/40320` on
/// raw radians.
pub open spec fn spec_cos_poly(x: int) -> int {
    let x2 = fx_mul(x, x);
    let x4 = fx_mul(x2, x2);
    let x6 = fx_mul(x4, x2);
    let x8 = fx_mul(x6, x2);
    fx_add(
        fx_sub(
            fx_add(fx_sub(SCALE as int, fx_mul(x2, HALF as int)), fx_mul(x4, INV24 as int)),
            fx_mul(x6, INV720 as int),
        ),
        fx_mul(x8, INV40320 as int),
    )
}

/// Sine of a reduced angle in `[0, 90)` raw degrees, folded about the
/// eighth of a turn so the series argument never exceeds half a quadrant.
pub open spec fn spec_quad_sin(r: int) -> int {
    if r <= DEG45 {
        spec_sin_poly(spec_to_rad(r))
    } else {
        spec_cos_poly(spec_to_rad(DEG90 - r))
    }
}

/// Cosine of a reduced angle in `[0, 90)` raw degrees.
pub open spec fn spec_quad_cos(r: int) -> int {
    if r <= DEG45 {
        spec_cos_poly(spec_to_rad(r))
    } else {
        spec_sin_poly(spec_to_rad(DEG90 - r))
    }
}

/// Sine of an angle in raw degrees: exact reduction modulo a full turn,
/// then quadrant symmetry over the folded quadrant functions.
pub open spec fn spec_sin_deg(a: int) -> int {
    let m = a % (DEG360 as int);
    let q = m / (DEG90 as int);
    let r = m % (DEG90 as int);
    if q == 0 {
        spec_quad_sin(r)
    } else if q == 1 {
        spec_quad_cos(r)
    } else if q == 2 {
        fx_neg(spec_quad_sin(r))
    } else {
        fx_neg(spec_quad_cos(r))
    }
}

/// Cosine of an angle in raw degrees.
pub open spec fn spec_cos_deg(a: int) -> int {
    let m = a % (DEG360 as int);
    let q = m / (DEG90 as int);
    let r = m % (DEG90 as int);
    if q == 0 {
        spec_quad_cos(r)
    } else if q == 1 {
        fx_neg(spec_quad_sin(r))
    } else if q == 2 {
        fx_neg(spec_quad_cos(r))
    } else {
        spec_quad_sin(r)
    }
}

/// At angle zero the sine and cosine are exact: zero and one.
pub proof fn lemma_sin_cos_zero()
    ensures
        spec_sin_deg(0) == 0,
        spec_cos_deg(0) == SCALE as int,
{
    lemma_fx_mul_zero(0);
    lemma_fx_mul_zero(RAD_PER_DEG as int);
    lemma_fx_mul_zero(SIXTH as int);
    lemma_fx_mul_zero(INV120 as int);
    lemma_fx_mul_zero(INV5040 as int);
    lemma_fx_mul_zero(HALF as int);
    lemma_fx_mul_zero(INV24 as int);
    lemma_fx_mul_zero(INV720 as int);
    lemma_fx_mul_zero(INV40320 as int);
    assert(0int % (DEG360 as int) == 0) by (nonlinear_arith);
    assert(0int / (DEG90 as int) == 0) by (nonlinear_arith);
    assert(0int % (DEG90 as int) == 0) by (nonlinear_arith);
    assert(spec_to_rad(0) == 0);
    assert(spec_sin_poly(0) == 0);
    assert(spec_cos_poly(0) == SCALE as int);
}

/// At a quarter turn the sine and cosine are exact: one and zero. The
/// reduction maps ninety degrees to the second quadrant's boundary, where
/// the folded functions are evaluated at zero.
pub proof fn lemma_sin_cos_quarter_turn()
    ensures
        spec_sin_deg(DEG90 as int) == SCALE as int,
        spec_cos_deg(DEG90 as int) == 0,
{
    lemma_fx_mul_zero(0);
    lemma_fx_mul_zero(RAD_PER_DEG as int);
    lemma_fx_mul_zero(SIXTH as int);
    lemma_fx_mul_zero(INV120 as int);
    lemma_fx_mul_zero(INV5040 as int);
    lemma_fx_mul_zero(HALF as int);
    lemma_fx_mul_zero(INV24 as int);
    lemma_fx_mul_zero(INV720 as int);
    lemma_fx_mul_zero(INV40320 as int);
    vstd::arithmetic::div_mod::lemma_small_mod(DEG90 as nat, DEG360 as nat);
    assert((DEG90 as int) / (DEG90 as int) == 1 && (DEG90 as int) % (DEG90 as int) == 0)
        by (nonlinear_arith);
    assert(spec_to_rad(0) == 0);
    assert(spec_sin_poly(0) == 0);
    assert(spec_cos_poly(0) == SCALE as int);
}

/// Euclidean reduction of a raw degree angle modulo a full turn.
fn reduce_deg(a: i64) -> (m: u64)
    ensures
        m as int == (a as int) % (DEG360 as int),
        0 <= m < DEG360 as u64,
{
    let d: u64 = 1546188226560;
    proof {
        lemma_mod_division_less_than_divisor(a as int, 1546188226560);
    }
    if a >= 0 {
        (a as u64) % d
    } else {
        let na: u128 = (-(a as i128)) as u128;
        let r: u128 = na % (d as u128);
        proof {
            let ai = a as int;
            let nai = -ai;
            lemma_fundamental_div_mod(nai, 1546188226560);
            let q0 = nai / 1546188226560;
            let r0 = nai % 1546188226560;
            assert((-q0) * 1546188226560 == -(1546188226560 * q0)) by (nonlinear_arith);
            assert((-q0 - 1) * 1546188226560 == -(1546188226560 * q0) - 1546188226560)
                by (nonlinear_arith);
            if r0 == 0 {
                lemma_fundamental_div_mod_converse(ai, 1546188226560, -q0, 0);
            } else {
                lemma_fundamental_div_mod_converse(ai, 1546188226560, -q0 - 1, 1546188226560 - r0);
            }
        }
        if r == 0 {
            0
        } else {
            d - (r as u64)
        }
    }
}

/// Degrees to radians.
fn to_rad(r: Scalar) -> (x: Scalar)
    ensures
        x@ == spec_to_rad(r@),
{
    r.mul(Scalar { bits: RAD_PER_DEG })
}

/// The sine power series.
fn sin_poly(x: Scalar) -> (s: Scalar)
    ensures
        s@ == spec_sin_poly(x@),
{
    let x2 = x.mul(x);
    let x3 = x2.mul(x);
    let x5 = x3.mul(x2);
    let x7 = x5.mul(x2);
    x.sub(x3.mul(Scalar { bits: SIXTH })).add(x5.mul(Scalar { bits: INV120 })).sub(
        x7.mul(Scalar { bits: INV5040 }),
    )
}

/// The cosine power series.
fn cos_poly(x: Scalar) -> (c: Scalar)
    ensures
        c@ == spec_cos_poly(x@),
{
    let x2 = x.mul(x);
    let x4 = x2.mul(x2);
    let x6 = x4.mul(x2);
    let x8 = x6.mul(x2);
    Scalar { bits: SCALE }.sub(x2.mul(Scalar { bits: HALF })).add(
        x4.mul(Scalar { bits: INV24 }),
    ).sub(x6.mul(Scalar { bits: INV720 })).add(x8.mul(Scalar { bits: INV40320 }))
}

/// Sine over one folded quadrant.
fn quad_sin(r: u64) -> (s: Scalar)
    requires
        r < DEG90 as u64,
    ensures
        s@ == spec_quad_sin(r as int),
{
    if r <= 193273528320 {
        sin_poly(to_rad(Scalar { bits: r as i64 }))
    } else {
        cos_poly(to_rad(Scalar { bits: DEG90 - (r as i64) }))
    }
}

/// Cosine over one folded quadrant.
fn quad_cos(r: u64) -> (c: Scalar)
    requires
        r < DEG90 as u64,
    ensures
        c@ == spec_quad_cos(r as int),
{
    if r <= 193273528320 {
        cos_poly(to_rad(Scalar { bits: r as i64 }))
    } else {
        sin_poly(to_rad(Scalar { bits: DEG90 - (r as i64) }))
    }
}

/// Sine of an angle in degrees.
pub fn sin_deg(a: Scalar) -> (s: Scalar)
    ensures
        s@ == spec_sin_deg(a@),
{
    let m: u64 = reduce_deg(a.bits);
    proof {
        lemma_multiply_divide_lt(m as int, 4, 386547056640);
        lemma_mod_division_less_than_divisor(m as int, 386547056640);
    }
    let q: u64 = m / 386547056640;
    let r: u64 = m % 386547056640;
    if q == 0 {
        quad_sin(r)
    } else if q == 1 {
        quad_cos(r)
    } else if q == 2 {
        quad_sin(r).neg()
    } else {
        quad_cos(r).neg()
    }
}

/// Cosine of an angle in degrees.
pub fn cos_deg(a: Scalar) -> (c: Scalar)
    ensures
        c@ == spec_cos_deg(a@),
{
    let m: u64 = reduce_deg(a.bits);
    proof {
        lemma_multiply_divide_lt(m as int, 4, 386547056640);
        lemma_mod_division_less_than_divisor(m as int, 386547056640);
    }
    let q: u64 = m / 386547056640;
    let r: u64 = m % 386547056640;
    if q == 0 {
        quad_cos(r)
    } else if q == 1 {
        quad_sin(r).neg()
    } else if q == 2 {
        quad_cos(r).neg()
    } else {
        quad_sin(r)
    }
}

} // verus!
