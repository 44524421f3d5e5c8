//! Three-component vectors: the leaf type of the kernel. Every operation
//! is a pure value transformation whose result is pinned down component by
//! component over the fixed-point spec arithmetic.

use vstd::prelude::*;
use crate::scalar::SCALE;
use crate::scalar::Scalar;
use crate::scalar::fx_abs;
use crate::scalar::fx_add;
use crate::scalar::fx_div;
use crate::scalar::fx_mul;
use crate::scalar::fx_neg;
use crate::scalar::fx_sqrt;
use crate::scalar::fx_sub;
use crate::scalar::lemma_fx_mul_one;
use crate::scalar::lemma_fx_mul_zero;
use crate::scalar::lemma_fx_square_nonneg;
use crate::trig::DEG90;
use crate::trig::lemma_sin_cos_quarter_turn;
use crate::trig::lemma_sin_cos_zero;
use crate::trig::spec_cos_deg;
use crate::trig::spec_sin_deg;
use crate::trig::sin_deg;
use crate::trig::cos_deg;

verus! {

/// A three-component fixed-point vector.
#[derive(Clone, Copy, Debug, PartialEq, Eq, Structural)]
pub struct Vec3 {
    pub x: Scalar,
    pub y: Scalar,
    pub z: Scalar,
}

/// The dot product on raw components, summed left to right.
pub open spec fn spec_dot3(lx: int, ly: int, lz: int, rx: int, ry: int, rz: int) -> int {
    fx_add(fx_add(fx_mul(lx, rx), fx_mul(ly, ry)), fx_mul(lz, rz))
}

/// The cross product on raw components.
pub open spec fn spec_cross3(lx: int, ly: int, lz: int, rx: int, ry: int, rz: int) -> (
    int,
    int,
    int,
) {
    (
        fx_sub(fx_mul(ly, rz), fx_mul(lz, ry)),
        fx_sub(fx_mul(lz, rx), fx_mul(lx, rz)),
        fx_sub(fx_mul(lx, ry), fx_mul(ly, rx)),
    )
}

/// The length of the vector with the given raw components.
pub open spec fn spec_len3(x: int, y: int, z: int) -> int {
    fx_sqrt(spec_dot3(x, y, z, x, y, z))
}

/// The raw components divided by their common length; an all-zero vector
/// stays zero by the division-by-zero policy.
pub open spec fn spec_norm3(x: int, y: int, z: int) -> (int, int, int) {
    let len = spec_len3(x, y, z);
    (fx_div(x, len), fx_div(y, len), fx_div(z, len))
}

/// The dot product of two vectors, summed left to right.
pub open spec fn spec_dot(l: Vec3, r: Vec3) -> int {
    spec_dot3(l.x@, l.y@, l.z@, r.x@, r.y@, r.z@)
}

/// The cross product of two vectors.
pub open spec fn spec_cross(l: Vec3, r: Vec3) -> (int, int, int) {
    spec_cross3(l.x@, l.y@, l.z@, r.x@, r.y@, r.z@)
}

/// The squared length of a vector.
pub open spec fn spec_length_squared(v: Vec3) -> int {
    spec_dot(v, v)
}

/// The length of a vector.
pub open spec fn spec_length(v: Vec3) -> int {
    fx_sqrt(spec_length_squared(v))
}

/// A squared length is never negative.
pub proof fn lemma_length_squared_nonneg(v: Vec3)
    ensures
        spec_length_squared(v) >= 0,
{
    lemma_fx_square_nonneg(v.x@);
    lemma_fx_square_nonneg(v.y@);
    lemma_fx_square_nonneg(v.z@);
}

/// The vector scaled to unit length by dividing each component by the
/// length; a zero vector stays zero by the division-by-zero policy.
pub open spec fn spec_normalized(v: Vec3) -> (int, int, int) {
    spec_norm3(v.x@, v.y@, v.z@)
}

/// The componentwise difference of two vectors.
pub open spec fn spec_sub(l: Vec3, r: Vec3) -> (int, int, int) {
    (fx_sub(l.x@, r.x@), fx_sub(l.y@, r.y@), fx_sub(l.z@, r.z@))
}

/// The squared distance between two points.
pub open spec fn spec_distance_squared(l: Vec3, r: Vec3) -> int {
    let d = spec_sub(l, r);
    fx_add(fx_add(fx_mul(d.0, d.0), fx_mul(d.1, d.1)), fx_mul(d.2, d.2))
}

/// The distance between two points.
pub open spec fn spec_distance(l: Vec3, r: Vec3) -> int {
    fx_sqrt(spec_distance_squared(l, r))
}

/// A vector of exactly unit length is a fixed point of normalization:
/// each component is divided by one and comes back unchanged. In
/// particular, normalization is idempotent wherever its first application
/// lands exactly on unit length.
pub proof fn lemma_normalized_of_unit_vector(v: Vec3)
    requires
        spec_length(v) == crate::scalar::SCALE as int,
    ensures
        spec_normalized(v) == (v.x@, v.y@, v.z@),
{
    crate::scalar::lemma_fx_div_one(v.x@);
    crate::scalar::lemma_fx_div_one(v.y@);
    crate::scalar::lemma_fx_div_one(v.z@);
}

/// Rodrigues' rotation of `v` about the unit `axis` by `angle` degrees:
/// `v cos t + (axis x v) sin t + axis (axis . v)(1 - cos t)`.
pub open spec fn spec_rotate(v: Vec3, axis: Vec3, angle: int) -> (int, int, int) {
    let s = spec_sin_deg(angle);
    let c = spec_cos_deg(angle);
    let k = fx_mul(spec_dot(v, axis), fx_sub(SCALE as int, c));
    (
        fx_add(
            fx_add(fx_mul(v.x@, c), fx_mul(fx_sub(fx_mul(axis.y@, v.z@), fx_mul(axis.z@, v.y@)), s)),
            fx_mul(axis.x@, k),
        ),
        fx_add(
            fx_add(fx_mul(v.y@, c), fx_mul(fx_sub(fx_mul(axis.z@, v.x@), fx_mul(axis.x@, v.z@)), s)),
            fx_mul(axis.y@, k),
        ),
        fx_add(
            fx_add(fx_mul(v.z@, c), fx_mul(fx_sub(fx_mul(axis.x@, v.y@), fx_mul(axis.y@, v.x@)), s)),
            fx_mul(axis.z@, k),
        ),
    )
}

/// A rotation by zero degrees returns every vector unchanged, exactly:
/// the sine of zero vanishes, the cosine of zero is one, and the axis
/// term is scaled by one minus the cosine, which is zero.
pub proof fn lemma_rotate_by_zero_is_identity(v: Vec3, axis: Vec3)
    ensures
        spec_rotate(v, axis, 0) == (v.x@, v.y@, v.z@),
{
    lemma_sin_cos_zero();
    lemma_fx_mul_one(v.x@);
    lemma_fx_mul_one(v.y@);
    lemma_fx_mul_one(v.z@);
    lemma_fx_mul_zero(fx_sub(fx_mul(axis.y@, v.z@), fx_mul(axis.z@, v.y@)));
    lemma_fx_mul_zero(fx_sub(fx_mul(axis.z@, v.x@), fx_mul(axis.x@, v.z@)));
    lemma_fx_mul_zero(fx_sub(fx_mul(axis.x@, v.y@), fx_mul(axis.y@, v.x@)));
    lemma_fx_mul_zero(spec_dot(v, axis));
    lemma_fx_mul_zero(axis.x@);
    lemma_fx_mul_zero(axis.y@);
    lemma_fx_mul_zero(axis.z@);
}

/// A quarter turn about the positive z axis maps `(x, y, z)` exactly to
/// `(-y, x, z)` — the right-hand rule — and so preserves the length
/// exactly, provided negating `y` does not saturate.
pub proof fn lemma_quarter_turn_about_z(v: Vec3)
    requires
        v.y@ > i64::MIN,
    ensures
        spec_rotate(
            v,
            (Vec3 { x: Scalar { bits: 0 }, y: Scalar { bits: 0 }, z: Scalar { bits: SCALE } }),
            DEG90 as int,
        ) == (fx_neg(v.y@), v.x@, v.z@),
        spec_len3(fx_neg(v.y@), v.x@, v.z@) == spec_length(v),
{
    lemma_sin_cos_quarter_turn();
    lemma_fx_mul_zero(v.x@);
    lemma_fx_mul_zero(v.y@);
    lemma_fx_mul_zero(v.z@);
    lemma_fx_mul_one(v.x@);
    lemma_fx_mul_one(v.y@);
    lemma_fx_mul_one(v.z@);
    lemma_fx_mul_one(fx_neg(v.y@));
    lemma_fx_mul_zero(fx_neg(v.y@));
    assert((0 - v.y@) * (0 - v.y@) == v.y@ * v.y@) by (nonlinear_arith);
}

/// Linear interpolation `(1 - t) * a + t * b`, not clamped.
pub open spec fn spec_lerp(a: Vec3, b: Vec3, t: int) -> (int, int, int) {
    let d = fx_sub(SCALE as int, t);
    (
        fx_add(fx_mul(d, a.x@), fx_mul(t, b.x@)),
        fx_add(fx_mul(d, a.y@), fx_mul(t, b.y@)),
        fx_add(fx_mul(d, a.z@), fx_mul(t, b.z@)),
    )
}

impl Vec3 {
    /// The zero vector.
    pub fn new() -> (r: Vec3)
        ensures
            r.x@ == 0 && r.y@ == 0 && r.z@ == 0,
    {
        Vec3 { x: Scalar::zero(), y: Scalar::zero(), z: Scalar::zero() }
    }

    /// Replaces all three components.
    pub fn set(&mut self, x: Scalar, y: Scalar, z: Scalar)
        ensures
            final(self).x == x && final(self).y == y && final(self).z == z,
    {
        self.x = x;
        self.y = y;
        self.z = z;
    }

    /// The dot product.
    pub fn dot(l: &Vec3, r: &Vec3) -> (d: Scalar)
        ensures
            d@ == spec_dot(*l, *r),
    {
        l.x.mul(r.x).add(l.y.mul(r.y)).add(l.z.mul(r.z))
    }

    /// The cross product.
    pub fn cross(l: &Vec3, r: &Vec3) -> (c: Vec3)
        ensures
            (c.x@, c.y@, c.z@) == spec_cross(*l, *r),
    {
        Vec3 {
            x: l.y.mul(r.z).sub(l.z.mul(r.y)),
            y: l.z.mul(r.x).sub(l.x.mul(r.z)),
            z: l.x.mul(r.y).sub(l.y.mul(r.x)),
        }
    }

    /// Rotates the vector about `axis` by `angle` degrees with Rodrigues'
    /// formula; the axis is taken as already normalized.
    pub fn rotate(&self, axis: &Vec3, angle: Scalar) -> (r: Vec3)
        ensures
            (r.x@, r.y@, r.z@) == spec_rotate(*self, *axis, angle@),
    {
        let sin_t = sin_deg(angle);
        let cos_t = cos_deg(angle);

        let ax = self.x.mul(cos_t);
        let ay = self.y.mul(cos_t);
        let az = self.z.mul(cos_t);

        let bx = axis.y.mul(self.z).sub(axis.z.mul(self.y)).mul(sin_t);
        let by = axis.z.mul(self.x).sub(axis.x.mul(self.z)).mul(sin_t);
        let bz = axis.x.mul(self.y).sub(axis.y.mul(self.x)).mul(sin_t);

        let k = Vec3::dot(self, axis).mul(Scalar::one().sub(cos_t));
        let cx = axis.x.mul(k);
        let cy = axis.y.mul(k);
        let cz = axis.z.mul(k);

        Vec3 { x: ax.add(bx).add(cx), y: ay.add(by).add(cy), z: az.add(bz).add(cz) }
    }

    /// The vector divided by its own length; normalizing a zero vector is
    /// a caller error and yields the zero vector.
    pub fn normalized(&self) -> (r: Vec3)
        ensures
            (r.x@, r.y@, r.z@) == spec_normalized(*self),
    {
        let len = self.length();
        Vec3 { x: self.x.div(len), y: self.y.div(len), z: self.z.div(len) }
    }

    /// The length of the vector.
    pub fn length(&self) -> (l: Scalar)
        ensures
            l@ == spec_length(*self),
    {
        proof {
            lemma_length_squared_nonneg(*self);
        }
        self.length_squared().sqrt()
    }

    /// The squared length of the vector.
    pub fn length_squared(&self) -> (l: Scalar)
        ensures
            l@ == spec_length_squared(*self),
    {
        Vec3::dot(self, self)
    }

    /// The distance between two points.
    pub fn distance(v1: &Vec3, v2: &Vec3) -> (d: Scalar)
        ensures
            d@ == spec_distance(*v1, *v2),
    {
        Vec3::sub(v1, v2).length()
    }

    /// The squared distance between two points.
    pub fn distance_squared(v1: &Vec3, v2: &Vec3) -> (d: Scalar)
        ensures
            d@ == spec_distance_squared(*v1, *v2),
    {
        Vec3::sub(v1, v2).length_squared()
    }

    /// Linear interpolation from `v1` to `v2`; `amount` outside the unit
    /// interval extrapolates.
    pub fn lerp(v1: &Vec3, v2: &Vec3, amount: Scalar) -> (r: Vec3)
        ensures
            (r.x@, r.y@, r.z@) == spec_lerp(*v1, *v2, amount@),
    {
        let diff = Scalar::one().sub(amount);
        Vec3 {
            x: diff.mul(v1.x).add(amount.mul(v2.x)),
            y: diff.mul(v1.y).add(amount.mul(v2.y)),
            z: diff.mul(v1.z).add(amount.mul(v2.z)),
        }
    }

    /// Componentwise sum.
    pub fn add(&self, r: &Vec3) -> (v: Vec3)
        ensures
            v.x@ == fx_add(self.x@, r.x@),
            v.y@ == fx_add(self.y@, r.y@),
            v.z@ == fx_add(self.z@, r.z@),
    {
        Vec3 { x: self.x.add(r.x), y: self.y.add(r.y), z: self.z.add(r.z) }
    }

    /// Componentwise difference.
    pub fn sub(&self, r: &Vec3) -> (v: Vec3)
        ensures
            (v.x@, v.y@, v.z@) == spec_sub(*self, *r),
    {
        Vec3 { x: self.x.sub(r.x), y: self.y.sub(r.y), z: self.z.sub(r.z) }
    }

    /// The vector scaled by a scalar.
    pub fn scale(&self, s: Scalar) -> (v: Vec3)
        ensures
            v.x@ == fx_mul(self.x@, s@),
            v.y@ == fx_mul(self.y@, s@),
            v.z@ == fx_mul(self.z@, s@),
    {
        Vec3 { x: self.x.mul(s), y: self.y.mul(s), z: self.z.mul(s) }
    }

    /// The vector divided by a scalar; dividing by zero scales each
    /// component by the largest representable value instead of trapping.
    pub fn divide(&self, s: Scalar) -> (v: Vec3)
        ensures
            v.x@ == fx_div(self.x@, s@),
            v.y@ == fx_div(self.y@, s@),
            v.z@ == fx_div(self.z@, s@),
    {
        Vec3 { x: self.x.div(s), y: self.y.div(s), z: self.z.div(s) }
    }

    /// The negated vector.
    pub fn negate(&self) -> (v: Vec3)
        ensures
            v.x@ == fx_neg(self.x@),
            v.y@ == fx_neg(self.y@),
            v.z@ == fx_neg(self.z@),
    {
        Vec3 { x: self.x.neg(), y: self.y.neg(), z: self.z.neg() }
    }

    /// The componentwise absolute value.
    pub fn abs(&self) -> (v: Vec3)
        ensures
            v.x@ == fx_abs(self.x@),
            v.y@ == fx_abs(self.y@),
            v.z@ == fx_abs(self.z@),
    {
        Vec3 { x: self.x.abs(), y: self.y.abs(), z: self.z.abs() }
    }
}

} // verus!
