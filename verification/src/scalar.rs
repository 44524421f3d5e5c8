//! The fixed-point scalar that every component of the kernel is made of:
//! a signed 64-bit value with 32 fractional bits (one unit is `SCALE` raw
//! steps). All arithmetic saturates at the ends of the 64-bit range instead
//! of wrapping or trapping, so no operation of this module panics.

use vstd::prelude::*;
use vstd::arithmetic::div_mod::lemma_div_by_multiple;
use vstd::arithmetic::div_mod::lemma_div_nonincreasing;
use vstd::arithmetic::div_mod::lemma_div_pos_is_pos;
use vstd::arithmetic::mul::lemma_mul_upper_bound;
use vstd::math::abs;

verus! {

/// Raw steps per unit: the scalar stores `value * SCALE` as an `i64`.
pub const SCALE: i64 = 4294967296;

/// Two in raw units (exact).
pub const TWO: i64 = 8589934592;

/// Whether a mathematical integer fits the raw 64-bit range.
pub open spec fn fits_i64(x: int) -> bool {
    i64::MIN <= x <= i64::MAX
}

/// Clamps a mathematical integer to the raw 64-bit range.
pub open spec fn sat64(x: int) -> int {
    if x > i64::MAX {
        i64::MAX as int
    } else if x < i64::MIN {
        i64::MIN as int
    } else {
        x
    }
}

/// Division rounding toward zero, as machine division does.
pub open spec fn div_trunc(x: int, d: int) -> int
    recommends
        d != 0,
{
    if x == 0 {
        0
    } else if x > 0 && d > 0 {
        x / d
    } else if x < 0 && d < 0 {
        (x * -1) / (d * -1)
    } else if x < 0 {
        ((x * -1) / d) * -1
    } else {
        (x / (d * -1)) * -1
    }
}

/// Saturating fixed-point addition of raw values.
pub open spec fn fx_add(a: int, b: int) -> int {
    sat64(a + b)
}

/// Saturating fixed-point subtraction of raw values.
pub open spec fn fx_sub(a: int, b: int) -> int {
    sat64(a - b)
}

/// Saturating fixed-point negation of a raw value.
pub open spec fn fx_neg(a: int) -> int {
    sat64(-a)
}

/// Saturating fixed-point absolute value of a raw value.
pub open spec fn fx_abs(a: int) -> int {
    if a < 0 {
        sat64(-a)
    } else {
        a
    }
}

/// Saturating fixed-point multiplication of raw values: the exact product
/// is rescaled by `SCALE`, rounding toward zero.
pub open spec fn fx_mul(a: int, b: int) -> int {
    sat64(div_trunc(a * b, SCALE as int))
}

/// Saturating fixed-point division of raw values, rounding toward zero.
/// Division by zero scales the dividend by the largest representable
/// value instead of trapping.
pub open spec fn fx_div(a: int, b: int) -> int {
    if b == 0 {
        fx_mul(a, i64::MAX as int)
    } else {
        sat64(div_trunc(a * (SCALE as int), b))
    }
}

/// The integer square root: the greatest `r` with `r * r <= n`.
pub open spec fn spec_isqrt(n: nat) -> nat
    decreases n,
{
    if n == 0 {
        0
    } else {
        let r = spec_isqrt((n - 1) as nat);
        if (r + 1) * (r + 1) <= n {
            r + 1
        } else {
            r
        }
    }
}

/// Fixed-point square root of a nonnegative raw value: the integer square
/// root of the value rescaled so that the result is again a raw value.
pub open spec fn fx_sqrt(a: int) -> int {
    spec_isqrt((a * (SCALE as int)) as nat) as int
}

/// A signed fixed-point number: `bits` holds the value times `SCALE`.
#[derive(Clone, Copy, Debug, PartialEq, Eq, Structural)]
pub struct Scalar {
    pub bits: i64,
}

impl View for Scalar {
    type V = int;

    open spec fn view(&self) -> int {
        self.bits as int
    }
}

/// Clamps a 128-bit intermediate into the raw 64-bit range.
fn clamp128(x: i128) -> (r: i64)
    ensures
        r as int == sat64(x as int),
{
    if x > i64::MAX as i128 {
        i64::MAX
    } else if x < i64::MIN as i128 {
        i64::MIN
    } else {
        x as i64
    }
}

impl Scalar {
    /// The scalar with the given raw representation.
    pub fn new(bits: i64) -> (r: Scalar)
        ensures
            r@ == bits as int,
    {
        Scalar { bits }
    }

    /// Zero.
    pub fn zero() -> (r: Scalar)
        ensures
            r@ == 0,
    {
        Scalar { bits: 0 }
    }

    /// One.
    pub fn one() -> (r: Scalar)
        ensures
            r@ == SCALE as int,
    {
        Scalar { bits: SCALE }
    }

    /// The largest representable scalar.
    pub fn max_value() -> (r: Scalar)
        ensures
            r@ == i64::MAX as int,
    {
        Scalar { bits: i64::MAX }
    }

    /// The scalar of a whole number, saturated to the representable range.
    pub fn from_int(i: i64) -> (r: Scalar)
        ensures
            r@ == sat64(i * (SCALE as int)),
    {
        proof {
            lemma_i64_product_fits(i as int, SCALE as int);
        }
        let wide: i128 = (i as i128) * (SCALE as i128);
        Scalar { bits: clamp128(wide) }
    }

    /// Saturating addition.
    pub fn add(self, rhs: Scalar) -> (r: Scalar)
        ensures
            r@ == fx_add(self@, rhs@),
    {
        let wide: i128 = (self.bits as i128) + (rhs.bits as i128);
        Scalar { bits: clamp128(wide) }
    }

    /// Saturating subtraction.
    pub fn sub(self, rhs: Scalar) -> (r: Scalar)
        ensures
            r@ == fx_sub(self@, rhs@),
    {
        let wide: i128 = (self.bits as i128) - (rhs.bits as i128);
        Scalar { bits: clamp128(wide) }
    }

    /// Saturating negation.
    pub fn neg(self) -> (r: Scalar)
        ensures
            r@ == fx_neg(self@),
    {
        let wide: i128 = -(self.bits as i128);
        Scalar { bits: clamp128(wide) }
    }

    /// Saturating absolute value.
    pub fn abs(self) -> (r: Scalar)
        ensures
            r@ == fx_abs(self@),
    {
        if self.bits < 0 {
            self.neg()
        } else {
            self
        }
    }

    /// Fixed-point multiplication.
    pub fn mul(self, rhs: Scalar) -> (r: Scalar)
        ensures
            r@ == fx_mul(self@, rhs@),
    {
        let a: i128 = self.bits as i128;
        let b: i128 = rhs.bits as i128;
        proof {
            lemma_i64_product_fits(a as int, b as int);
        }
        let p: i128 = a * b;
        let q: Option<i128> = p.checked_div(SCALE as i128);
        proof {
            lemma_div_trunc_bounds(p as int, SCALE as int);
        }
        let v: i128 = q.unwrap();
        Scalar { bits: clamp128(v) }
    }

    /// Fixed-point division. Dividing by zero scales the dividend by the
    /// largest representable value instead of trapping.
    pub fn div(self, rhs: Scalar) -> (r: Scalar)
        ensures
            r@ == fx_div(self@, rhs@),
    {
        if rhs.bits == 0 {
            return self.mul(Scalar::max_value());
        }
        proof {
            lemma_i64_product_fits(self.bits as int, SCALE as int);
        }
        let n: i128 = (self.bits as i128) * (SCALE as i128);
        let q: Option<i128> = n.checked_div(rhs.bits as i128);
        proof {
            lemma_div_trunc_bounds(n as int, rhs.bits as int);
        }
        let v: i128 = q.unwrap();
        Scalar { bits: clamp128(v) }
    }

    /// Fixed-point square root of a nonnegative scalar.
    pub fn sqrt(self) -> (r: Scalar)
        requires
            self@ >= 0,
        ensures
            r@ == fx_sqrt(self@),
    {
        let b: u128 = self.bits as u128;
        proof {
            assert(b * (SCALE as u128) < 79228162514264337593543950336) by (nonlinear_arith)
                requires
                    (SCALE as u128) == 4294967296,
                    b <= 9223372036854775807,
            ;
        }
        let n: u128 = b * (SCALE as u128);
        let mut lo: u128 = 0;
        let mut hi: u128 = 281474976710656;
        proof {
            assert(n < hi * hi) by (nonlinear_arith)
                requires
                    n == b * (SCALE as u128),
                    (SCALE as u128) == 4294967296,
                    b <= 9223372036854775807,
                    hi == 281474976710656,
            ;
        }
        while lo + 1 < hi
            invariant
                lo < hi,
                hi <= 281474976710656,
                lo * lo <= n,
                n < hi * hi,
            decreases hi - lo,
        {
            let mid: u128 = lo + (hi - lo) / 2;
            proof {
                lemma_mul_upper_bound(mid as int, 281474976710656, mid as int, 281474976710656);
            }
            let sq: u128 = mid * mid;
            if sq <= n {
                lo = mid;
            } else {
                hi = mid;
            }
        }
        proof {
            lemma_isqrt_bounds(n as nat);
            lemma_isqrt_unique(n as int, lo as int, spec_isqrt(n as nat) as int);
        }
        Scalar { bits: lo as i64 }
    }
}

/// The product of two raw 64-bit values fits a 128-bit intermediate.
pub proof fn lemma_i64_product_fits(a: int, b: int)
    by (nonlinear_arith)
    requires
        fits_i64(a),
        fits_i64(b),
    ensures
        -0x40000000000000000000000000000000 <= a * b <= 0x40000000000000000000000000000000,
{
}

/// Truncating division never grows magnitude.
pub proof fn lemma_div_trunc_bounds(x: int, d: int)
    requires
        d != 0,
    ensures
        div_trunc(x, d) <= abs(x),
        -(abs(x) as int) <= div_trunc(x, d),
{
    if x == 0 {
    } else if x > 0 && d > 0 {
        lemma_div_pos_is_pos(x, d);
        lemma_div_nonincreasing(x, d);
    } else if x < 0 && d < 0 {
        lemma_div_pos_is_pos(x * -1, d * -1);
        lemma_div_nonincreasing(x * -1, d * -1);
    } else if x < 0 {
        lemma_div_pos_is_pos(x * -1, d);
        lemma_div_nonincreasing(x * -1, d);
    } else {
        lemma_div_pos_is_pos(x, d * -1);
        lemma_div_nonincreasing(x, d * -1);
    }
}

/// The integer square root is bracketed by the two neighbouring squares.
pub proof fn lemma_isqrt_bounds(n: nat)
    ensures
        spec_isqrt(n) * spec_isqrt(n) <= n,
        n < (spec_isqrt(n) + 1) * (spec_isqrt(n) + 1),
    decreases n,
{
    if n > 0 {
        let p = (n - 1) as nat;
        lemma_isqrt_bounds(p);
        let r = spec_isqrt(p);
        if (r + 1) * (r + 1) <= n {
            assert(spec_isqrt(n) == r + 1);
            assert(n <= (r + 1) * (r + 1));
            assert((r + 1) * (r + 1) < (r + 2) * (r + 2)) by (nonlinear_arith);
            assert(n < ((r + 1) + 1) * ((r + 1) + 1));
            assert(n < (spec_isqrt(n) + 1) * (spec_isqrt(n) + 1));
        } else {
            assert(spec_isqrt(n) == r);
            assert(r * r <= p);
            assert(n < (r + 1) * (r + 1));
            assert(n < (spec_isqrt(n) + 1) * (spec_isqrt(n) + 1));
        }
    } else {
        let s = spec_isqrt(n);
        assert(s == 0);
        assert((s + 1) * (s + 1) == 1) by (nonlinear_arith)
            requires
                s == 0,
        ;
        assert(n < (s + 1) * (s + 1));
    }
}

/// Only one natural number is bracketed by its neighbouring squares.
pub proof fn lemma_isqrt_unique(n: int, r: int, s: int)
    by (nonlinear_arith)
    requires
        0 <= r,
        0 <= s,
        r * r <= n < (r + 1) * (r + 1),
        s * s <= n < (s + 1) * (s + 1),
    ensures
        r == s,
{
}

/// Multiplying by one raw unit is the identity on raw values.
pub proof fn lemma_fx_mul_one(a: int)
    requires
        fits_i64(a),
    ensures
        fx_mul(a, SCALE as int) == a,
        fx_mul(SCALE as int, a) == a,
{
    if a > 0 {
        lemma_div_by_multiple(a, SCALE as int);
        assert(a * (SCALE as int) == (SCALE as int) * a) by (nonlinear_arith);
    } else if a < 0 {
        lemma_div_by_multiple(a * -1, SCALE as int);
        assert(a * (SCALE as int) * -1 == (a * -1) * (SCALE as int)) by (nonlinear_arith);
        assert((SCALE as int) * a == a * (SCALE as int)) by (nonlinear_arith);
    }
}

/// A fixed-point square is never negative.
pub proof fn lemma_fx_square_nonneg(a: int)
    ensures
        fx_mul(a, a) >= 0,
{
    assert(a * a >= 0) by (nonlinear_arith);
    if a * a > 0 {
        lemma_div_pos_is_pos(a * a, SCALE as int);
    }
}

/// Dividing by one raw unit is the identity on raw values.
pub proof fn lemma_fx_div_one(a: int)
    requires
        fits_i64(a),
    ensures
        fx_div(a, SCALE as int) == a,
{
    if a > 0 {
        lemma_div_by_multiple(a, SCALE as int);
    } else if a < 0 {
        lemma_div_by_multiple(a * -1, SCALE as int);
        assert(a * (SCALE as int) * -1 == (a * -1) * (SCALE as int)) by (nonlinear_arith);
    }
}

/// Multiplying by zero gives zero.
pub proof fn lemma_fx_mul_zero(a: int)
    ensures
        fx_mul(a, 0) == 0,
        fx_mul(0, a) == 0,
{
    assert(a * 0 == 0) by (nonlinear_arith);
    assert(0 * a == 0) by (nonlinear_arith);
}

} // verus!
