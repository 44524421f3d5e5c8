//! Unit quaternions, the kernel's rotation representation. Constructors
//! normalize their result; the raw algebraic operations (`add`, `sub`,
//! `scale`) deliberately do not, and a caller must renormalize before using
//! such a result as a rotation.

use vstd::prelude::*;
use crate::scalar::SCALE;
use crate::scalar::TWO;
use crate::scalar::Scalar;
use crate::scalar::fx_add;
use crate::scalar::fx_div;
use crate::scalar::fx_mul;
use crate::scalar::fx_neg;
use crate::scalar::fx_sqrt;
use crate::scalar::fx_sub;
use crate::scalar::lemma_fx_mul_one;
use crate::scalar::lemma_fx_mul_zero;
use crate::scalar::lemma_fx_square_nonneg;
use crate::scalar::lemma_isqrt_bounds;
use crate::scalar::lemma_isqrt_unique;
use crate::scalar::spec_isqrt;
use crate::trig::HALF;
use crate::trig::lemma_sin_cos_zero;
use crate::trig::spec_cos_deg;
use crate::trig::spec_sin_deg;
use crate::trig::sin_deg;
use crate::trig::cos_deg;
use crate::vec3::Vec3;
use crate::vec3::spec_normalized;
use crate::mat4x4::Mat4x4;
use crate::mat4x4::spec_identity;

verus! {

/// A fixed-point quaternion `x i + y j + z k + w`.
#[derive(Clone, Copy, Debug, PartialEq, Eq, Structural)]
pub struct Quaternion {
    pub x: Scalar,
    pub y: Scalar,
    pub z: Scalar,
    pub w: Scalar,
}

/// The squared length of the quaternion with the given raw components.
pub open spec fn spec_norm_squared4(x: int, y: int, z: int, w: int) -> int {
    fx_add(fx_add(fx_add(fx_mul(x, x), fx_mul(y, y)), fx_mul(z, z)), fx_mul(w, w))
}

/// The raw components divided by their common length; all-zero components
/// stay zero by the division-by-zero policy.
pub open spec fn spec_norm4(x: int, y: int, z: int, w: int) -> (int, int, int, int) {
    let len = fx_sqrt(spec_norm_squared4(x, y, z, w));
    (fx_div(x, len), fx_div(y, len), fx_div(z, len), fx_div(w, len))
}

/// The Hamilton product on raw components: the left factor is applied
/// after the right one, so the order matters.
pub open spec fn spec_mul4(
    lx: int,
    ly: int,
    lz: int,
    lw: int,
    rx: int,
    ry: int,
    rz: int,
    rw: int,
) -> (int, int, int, int) {
    (
        fx_sub(fx_add(fx_add(fx_mul(lw, rx), fx_mul(lx, rw)), fx_mul(ly, rz)), fx_mul(lz, ry)),
        fx_sub(fx_add(fx_add(fx_mul(lw, ry), fx_mul(ly, rw)), fx_mul(lz, rx)), fx_mul(lx, rz)),
        fx_sub(fx_add(fx_add(fx_mul(lw, rz), fx_mul(lz, rw)), fx_mul(lx, ry)), fx_mul(ly, rx)),
        fx_sub(fx_sub(fx_sub(fx_mul(lw, rw), fx_mul(lx, rx)), fx_mul(ly, ry)), fx_mul(lz, rz)),
    )
}

/// The squared length of a quaternion.
pub open spec fn spec_quat_length_squared(q: Quaternion) -> int {
    spec_norm_squared4(q.x@, q.y@, q.z@, q.w@)
}

/// The length of a quaternion.
pub open spec fn spec_quat_length(q: Quaternion) -> int {
    fx_sqrt(spec_quat_length_squared(q))
}

/// A squared quaternion length is never negative.
pub proof fn lemma_quat_length_squared_nonneg(q: Quaternion)
    ensures
        spec_quat_length_squared(q) >= 0,
{
    lemma_fx_square_nonneg(q.x@);
    lemma_fx_square_nonneg(q.y@);
    lemma_fx_square_nonneg(q.z@);
    lemma_fx_square_nonneg(q.w@);
}

/// The quaternion scaled to unit length.
pub open spec fn spec_quat_normalized(q: Quaternion) -> (int, int, int, int) {
    spec_norm4(q.x@, q.y@, q.z@, q.w@)
}

/// The Hamilton product of two quaternions.
pub open spec fn spec_quat_mul(l: Quaternion, r: Quaternion) -> (int, int, int, int) {
    spec_mul4(l.x@, l.y@, l.z@, l.w@, r.x@, r.y@, r.z@, r.w@)
}

/// The dot product of two quaternions.
pub open spec fn spec_quat_dot(l: Quaternion, r: Quaternion) -> int {
    fx_add(
        fx_add(fx_add(fx_mul(l.x@, r.x@), fx_mul(l.y@, r.y@)), fx_mul(l.z@, r.z@)),
        fx_mul(l.w@, r.w@),
    )
}

/// The half-angle axis-angle encoding, normalized: each axis component is
/// scaled by the sine of half the angle and the real part is the cosine of
/// half the angle.
pub open spec fn spec_from_axis(axis: Vec3, angle: int) -> (int, int, int, int) {
    let half = fx_mul(angle, HALF as int);
    let hs = spec_sin_deg(half);
    let hc = spec_cos_deg(half);
    spec_norm4(fx_mul(axis.x@, hs), fx_mul(axis.y@, hs), fx_mul(axis.z@, hs), hc)
}

/// The Euler-angle constructor: half-angle sine and cosine terms of pitch,
/// yaw and roll composed in a fixed intrinsic order, normalized. The sines
/// enter negated, encoding the clockwise-positive angle convention.
pub open spec fn spec_from_euler(angles: Vec3) -> (int, int, int, int) {
    let sin_x = fx_neg(spec_sin_deg(fx_mul(angles.x@, HALF as int)));
    let sin_y = fx_neg(spec_sin_deg(fx_mul(angles.y@, HALF as int)));
    let sin_z = fx_neg(spec_sin_deg(fx_mul(angles.z@, HALF as int)));
    let cos_x = spec_cos_deg(fx_mul(angles.x@, HALF as int));
    let cos_y = spec_cos_deg(fx_mul(angles.y@, HALF as int));
    let cos_z = spec_cos_deg(fx_mul(angles.z@, HALF as int));
    let sin_x_sin_y = fx_mul(sin_x, sin_y);
    let cos_x_cos_y = fx_mul(cos_x, cos_y);
    let cos_x_sin_y = fx_mul(cos_x, sin_y);
    let cos_y_sin_x = fx_mul(cos_y, sin_x);
    spec_norm4(
        fx_add(fx_mul(cos_x_sin_y, sin_z), fx_mul(cos_y_sin_x, cos_z)),
        fx_add(fx_mul(cos_x_sin_y, cos_z), fx_mul(cos_y_sin_x, sin_z)),
        fx_sub(fx_mul(cos_x_cos_y, sin_z), fx_mul(sin_x_sin_y, cos_z)),
        fx_sub(fx_mul(cos_x_cos_y, cos_z), fx_mul(sin_x_sin_y, sin_z)),
    )
}

/// An incremental rotation: a delta quaternion built from the normalized
/// axis with negated components (clockwise-positive convention) is
/// left-multiplied onto the orientation, then the result is renormalized.
pub open spec fn spec_quat_rotate(q: Quaternion, axis: Vec3, angle: int) -> (int, int, int, int) {
    let half = fx_mul(angle, HALF as int);
    let hs = spec_sin_deg(half);
    let hc = spec_cos_deg(half);
    let an = spec_normalized(axis);
    let d = spec_mul4(
        fx_mul(fx_neg(an.0), hs),
        fx_mul(fx_neg(an.1), hs),
        fx_mul(fx_neg(an.2), hs),
        hc,
        q.x@,
        q.y@,
        q.z@,
        q.w@,
    );
    spec_norm4(d.0, d.1, d.2, d.3)
}

/// The identity quaternion is a two-sided identity of the Hamilton
/// product, exactly.
pub proof fn lemma_quat_mul_identity(i: Quaternion, q: Quaternion)
    requires
        i.x@ == 0,
        i.y@ == 0,
        i.z@ == 0,
        i.w@ == SCALE as int,
    ensures
        spec_quat_mul(i, q) == (q.x@, q.y@, q.z@, q.w@),
        spec_quat_mul(q, i) == (q.x@, q.y@, q.z@, q.w@),
{
    lemma_fx_mul_one(q.x@);
    lemma_fx_mul_one(q.y@);
    lemma_fx_mul_one(q.z@);
    lemma_fx_mul_one(q.w@);
    lemma_fx_mul_zero(q.x@);
    lemma_fx_mul_zero(q.y@);
    lemma_fx_mul_zero(q.z@);
    lemma_fx_mul_zero(q.w@);
}

/// A quaternion of exactly unit length is a fixed point of
/// normalization: each component is divided by one and comes back
/// unchanged.
pub proof fn lemma_normalized_of_unit_quaternion(q: Quaternion)
    requires
        spec_quat_length(q) == SCALE as int,
    ensures
        spec_quat_normalized(q) == (q.x@, q.y@, q.z@, q.w@),
{
    crate::scalar::lemma_fx_div_one(q.x@);
    crate::scalar::lemma_fx_div_one(q.y@);
    crate::scalar::lemma_fx_div_one(q.z@);
    crate::scalar::lemma_fx_div_one(q.w@);
}

/// Building a rotation of zero degrees about any axis gives exactly the
/// identity quaternion: the half-angle sine vanishes, the cosine is one,
/// and normalizing the unit result leaves it unchanged.
pub proof fn lemma_from_axis_zero_is_identity(axis: Vec3)
    ensures
        spec_from_axis(axis, 0) == (0int, 0int, 0int, SCALE as int),
{
    lemma_sin_cos_zero();
    lemma_fx_mul_zero(0);
    lemma_fx_mul_zero(HALF as int);
    lemma_fx_mul_zero(axis.x@);
    lemma_fx_mul_zero(axis.y@);
    lemma_fx_mul_zero(axis.z@);
    lemma_fx_mul_one(SCALE as int);
    assert(spec_norm_squared4(0, 0, 0, SCALE as int) == SCALE as int);
    lemma_isqrt_bounds(((SCALE as int) * (SCALE as int)) as nat);
    assert((SCALE as int) * (SCALE as int) < ((SCALE as int) + 1) * ((SCALE as int) + 1))
        by (nonlinear_arith);
    lemma_isqrt_unique(
        (SCALE as int) * (SCALE as int),
        SCALE as int,
        spec_isqrt(((SCALE as int) * (SCALE as int)) as nat) as int,
    );
    assert(fx_sqrt(SCALE as int) == SCALE as int);
    vstd::arithmetic::div_mod::lemma_div_by_multiple(SCALE as int, SCALE as int);
    assert(fx_div(SCALE as int, SCALE as int) == SCALE as int);
    assert(fx_div(0, SCALE as int) == 0);
}

/// The inverse: the conjugate divided by the squared length.
pub open spec fn spec_quat_inverse(q: Quaternion) -> (int, int, int, int) {
    let ls = spec_quat_length_squared(q);
    (fx_div(fx_neg(q.x@), ls), fx_div(fx_neg(q.y@), ls), fx_div(fx_neg(q.z@), ls), fx_div(q.w@, ls))
}

/// The rotation matrix of a quaternion, by the standard doubled-cross-term
/// formula; only a unit quaternion yields an orthonormal rotation block.
pub open spec fn spec_quat_matrix(q: Quaternion) -> Seq<int> {
    let xx2 = fx_mul(fx_mul(TWO as int, q.x@), q.x@);
    let xy2 = fx_mul(fx_mul(TWO as int, q.x@), q.y@);
    let xz2 = fx_mul(fx_mul(TWO as int, q.x@), q.z@);
    let xw2 = fx_mul(fx_mul(TWO as int, q.x@), q.w@);
    let yy2 = fx_mul(fx_mul(TWO as int, q.y@), q.y@);
    let yz2 = fx_mul(fx_mul(TWO as int, q.y@), q.z@);
    let yw2 = fx_mul(fx_mul(TWO as int, q.y@), q.w@);
    let zz2 = fx_mul(fx_mul(TWO as int, q.z@), q.z@);
    let zw2 = fx_mul(fx_mul(TWO as int, q.z@), q.w@);
    seq![
        fx_sub(SCALE as int, fx_add(yy2, zz2)), fx_add(xy2, zw2), fx_sub(xz2, yw2), 0,
        fx_sub(xy2, zw2), fx_sub(SCALE as int, fx_add(xx2, zz2)), fx_add(yz2, xw2), 0,
        fx_add(xz2, yw2), fx_sub(yz2, xw2), fx_sub(SCALE as int, fx_add(xx2, yy2)), 0,
        0, 0, 0, SCALE as int,
    ]
}

/// The rotation matrix of the identity quaternion is the identity
/// matrix, exactly: every doubled cross term vanishes.
pub proof fn lemma_matrix_of_identity(q: Quaternion)
    requires
        q.x@ == 0,
        q.y@ == 0,
        q.z@ == 0,
        q.w@ == SCALE as int,
    ensures
        spec_quat_matrix(q) == spec_identity(),
{
    lemma_fx_mul_zero(0);
    lemma_fx_mul_zero(TWO as int);
    lemma_fx_mul_zero(SCALE as int);
    assert(spec_quat_matrix(q) =~= spec_identity());
}

/// The rotated standard forward basis vector as a closed form of the
/// components of a unit quaternion.
pub open spec fn spec_forward(q: Quaternion) -> (int, int, int) {
    (
        fx_add(fx_mul(fx_mul(TWO as int, q.x@), q.z@), fx_mul(fx_mul(TWO as int, q.y@), q.w@)),
        fx_sub(fx_mul(fx_mul(TWO as int, q.y@), q.z@), fx_mul(fx_mul(TWO as int, q.x@), q.w@)),
        fx_sub(
            SCALE as int,
            fx_add(fx_mul(fx_mul(TWO as int, q.x@), q.x@), fx_mul(fx_mul(TWO as int, q.y@), q.y@)),
        ),
    )
}

/// The rotated standard backward basis vector.
pub open spec fn spec_backward(q: Quaternion) -> (int, int, int) {
    let f = spec_forward(q);
    (fx_neg(f.0), fx_neg(f.1), fx_neg(f.2))
}

/// The rotated standard up basis vector.
pub open spec fn spec_up(q: Quaternion) -> (int, int, int) {
    (
        fx_sub(fx_mul(fx_mul(TWO as int, q.x@), q.y@), fx_mul(fx_mul(TWO as int, q.z@), q.w@)),
        fx_sub(
            SCALE as int,
            fx_add(fx_mul(fx_mul(TWO as int, q.x@), q.x@), fx_mul(fx_mul(TWO as int, q.z@), q.z@)),
        ),
        fx_add(fx_mul(fx_mul(TWO as int, q.y@), q.z@), fx_mul(fx_mul(TWO as int, q.x@), q.w@)),
    )
}

/// The rotated standard down basis vector.
pub open spec fn spec_down(q: Quaternion) -> (int, int, int) {
    let u = spec_up(q);
    (fx_neg(u.0), fx_neg(u.1), fx_neg(u.2))
}

/// The rotated standard left basis vector.
pub open spec fn spec_left(q: Quaternion) -> (int, int, int) {
    (
        fx_sub(
            SCALE as int,
            fx_add(fx_mul(fx_mul(TWO as int, q.y@), q.y@), fx_mul(fx_mul(TWO as int, q.z@), q.z@)),
        ),
        fx_add(fx_mul(fx_mul(TWO as int, q.x@), q.y@), fx_mul(fx_mul(TWO as int, q.z@), q.w@)),
        fx_sub(fx_mul(fx_mul(TWO as int, q.x@), q.z@), fx_mul(fx_mul(TWO as int, q.y@), q.w@)),
    )
}

/// The rotated standard right basis vector.
pub open spec fn spec_right(q: Quaternion) -> (int, int, int) {
    let l = spec_left(q);
    (fx_neg(l.0), fx_neg(l.1), fx_neg(l.2))
}

/// The closed-form basis vectors agree with the rotation matrix: `left`,
/// `up` and `forward` are exactly its first, second and third row, for
/// every quaternion. The view-matrix builder may therefore use either
/// form interchangeably.
pub proof fn lemma_basis_vectors_are_matrix_rows(q: Quaternion)
    ensures
        spec_left(q) == (spec_quat_matrix(q)[0], spec_quat_matrix(q)[1], spec_quat_matrix(q)[2]),
        spec_up(q) == (spec_quat_matrix(q)[4], spec_quat_matrix(q)[5], spec_quat_matrix(q)[6]),
        spec_forward(q) == (
            spec_quat_matrix(q)[8],
            spec_quat_matrix(q)[9],
            spec_quat_matrix(q)[10],
        ),
{
}

impl Quaternion {
    /// The identity rotation.
    pub fn new() -> (r: Quaternion)
        ensures
            r.x@ == 0 && r.y@ == 0 && r.z@ == 0 && r.w@ == SCALE as int,
    {
        Quaternion { x: Scalar::zero(), y: Scalar::zero(), z: Scalar::zero(), w: Scalar::one() }
    }

    /// Replaces all four components.
    pub fn set(&mut self, x: Scalar, y: Scalar, z: Scalar, w: Scalar)
        ensures
            final(self).x == x && final(self).y == y && final(self).z == z && final(self).w == w,
    {
        self.x = x;
        self.y = y;
        self.z = z;
        self.w = w;
    }

    /// The rotation of `angle` degrees about `axis` as a unit quaternion.
    pub fn from_axis(axis: &Vec3, angle: Scalar) -> (r: Quaternion)
        ensures
            (r.x@, r.y@, r.z@, r.w@) == spec_from_axis(*axis, angle@),
    {
        let half = angle.mul(Scalar { bits: HALF });
        let half_sin = sin_deg(half);
        let half_cos = cos_deg(half);
        Quaternion {
            x: axis.x.mul(half_sin),
            y: axis.y.mul(half_sin),
            z: axis.z.mul(half_sin),
            w: half_cos,
        }.normalized()
    }

    /// The rotation given by Euler angles (pitch, yaw, roll in degrees) as
    /// a unit quaternion.
    pub fn from_euler(angles: &Vec3) -> (r: Quaternion)
        ensures
            (r.x@, r.y@, r.z@, r.w@) == spec_from_euler(*angles),
    {
        let sin_x = sin_deg(angles.x.mul(Scalar { bits: HALF })).neg();
        let sin_y = sin_deg(angles.y.mul(Scalar { bits: HALF })).neg();
        let sin_z = sin_deg(angles.z.mul(Scalar { bits: HALF })).neg();
        let cos_x = cos_deg(angles.x.mul(Scalar { bits: HALF }));
        let cos_y = cos_deg(angles.y.mul(Scalar { bits: HALF }));
        let cos_z = cos_deg(angles.z.mul(Scalar { bits: HALF }));

        let sin_x_sin_y = sin_x.mul(sin_y);
        let cos_x_cos_y = cos_x.mul(cos_y);
        let cos_x_sin_y = cos_x.mul(sin_y);
        let cos_y_sin_x = cos_y.mul(sin_x);

        Quaternion {
            x: cos_x_sin_y.mul(sin_z).add(cos_y_sin_x.mul(cos_z)),
            y: cos_x_sin_y.mul(cos_z).add(cos_y_sin_x.mul(sin_z)),
            z: cos_x_cos_y.mul(sin_z).sub(sin_x_sin_y.mul(cos_z)),
            w: cos_x_cos_y.mul(cos_z).sub(sin_x_sin_y.mul(sin_z)),
        }.normalized()
    }

    /// This orientation with an incremental rotation of `angle` degrees
    /// about `axis` applied, renormalized.
    pub fn rotate(&self, axis: &Vec3, angle: Scalar) -> (r: Quaternion)
        ensures
            (r.x@, r.y@, r.z@, r.w@) == spec_quat_rotate(*self, *axis, angle@),
    {
        let half = angle.mul(Scalar { bits: HALF });
        let half_sin = sin_deg(half);
        let half_cos = cos_deg(half);
        let axis_norm = axis.normalized();
        let delta = Quaternion {
            x: axis_norm.x.neg().mul(half_sin),
            y: axis_norm.y.neg().mul(half_sin),
            z: axis_norm.z.neg().mul(half_sin),
            w: half_cos,
        };
        delta.mul(self).normalized()
    }

    /// The quaternion divided by its own length; normalizing a zero
    /// quaternion is a caller error and yields the zero quaternion.
    pub fn normalized(&self) -> (r: Quaternion)
        ensures
            (r.x@, r.y@, r.z@, r.w@) == spec_quat_normalized(*self),
    {
        let len = self.length();
        Quaternion {
            x: self.x.div(len),
            y: self.y.div(len),
            z: self.z.div(len),
            w: self.w.div(len),
        }
    }

    /// The length of the quaternion.
    pub fn length(&self) -> (l: Scalar)
        ensures
            l@ == spec_quat_length(*self),
    {
        proof {
            lemma_quat_length_squared_nonneg(*self);
        }
        self.length_squared().sqrt()
    }

    /// The squared length of the quaternion.
    pub fn length_squared(&self) -> (l: Scalar)
        ensures
            l@ == spec_quat_length_squared(*self),
    {
        self.x.mul(self.x).add(self.y.mul(self.y)).add(self.z.mul(self.z)).add(
            self.w.mul(self.w),
        )
    }

    /// The dot product of two quaternions.
    pub fn dot(&self, q: Quaternion) -> (d: Scalar)
        ensures
            d@ == spec_quat_dot(*self, q),
    {
        self.x.mul(q.x).add(self.y.mul(q.y)).add(self.z.mul(q.z)).add(self.w.mul(q.w))
    }

    /// The conjugate: negated vector part, unchanged real part.
    pub fn conjugate(&self) -> (r: Quaternion)
        ensures
            r.x@ == fx_neg(self.x@),
            r.y@ == fx_neg(self.y@),
            r.z@ == fx_neg(self.z@),
            r.w@ == self.w@,
    {
        Quaternion { x: self.x.neg(), y: self.y.neg(), z: self.z.neg(), w: self.w }
    }

    /// The inverse: the conjugate divided by the squared length.
    pub fn inverse(&self) -> (r: Quaternion)
        ensures
            (r.x@, r.y@, r.z@, r.w@) == spec_quat_inverse(*self),
    {
        let ls = self.length_squared();
        Quaternion {
            x: self.x.neg().div(ls),
            y: self.y.neg().div(ls),
            z: self.z.neg().div(ls),
            w: self.w.div(ls),
        }
    }

    /// The rotation matrix of `q`; `q` must be unit length for the result
    /// to be an orthonormal rotation (not checked, a caller contract).
    pub fn matrix(q: &Quaternion) -> (r: Mat4x4)
        ensures
            r@ == spec_quat_matrix(*q),
    {
        let two = Scalar { bits: TWO };
        let xx2 = two.mul(q.x).mul(q.x);
        let xy2 = two.mul(q.x).mul(q.y);
        let xz2 = two.mul(q.x).mul(q.z);
        let xw2 = two.mul(q.x).mul(q.w);
        let yy2 = two.mul(q.y).mul(q.y);
        let yz2 = two.mul(q.y).mul(q.z);
        let yw2 = two.mul(q.y).mul(q.w);
        let zz2 = two.mul(q.z).mul(q.z);
        let zw2 = two.mul(q.z).mul(q.w);
        let one = Scalar::one();
        let zero = Scalar::zero();
        let r = Mat4x4 {
            m: [
                one.sub(yy2.add(zz2)), xy2.add(zw2), xz2.sub(yw2), zero,
                xy2.sub(zw2), one.sub(xx2.add(zz2)), yz2.add(xw2), zero,
                xz2.add(yw2), yz2.sub(xw2), one.sub(xx2.add(yy2)), zero,
                zero, zero, zero, one,
            ],
        };
        proof {
            assert(r@ =~= spec_quat_matrix(*q));
        }
        r
    }

    /// The rotated standard forward basis vector.
    pub fn forward(&self) -> (v: Vec3)
        ensures
            (v.x@, v.y@, v.z@) == spec_forward(*self),
    {
        let two = Scalar { bits: TWO };
        Vec3 {
            x: two.mul(self.x).mul(self.z).add(two.mul(self.y).mul(self.w)),
            y: two.mul(self.y).mul(self.z).sub(two.mul(self.x).mul(self.w)),
            z: Scalar::one().sub(two.mul(self.x).mul(self.x).add(two.mul(self.y).mul(self.y))),
        }
    }

    /// The rotated standard backward basis vector.
    pub fn backward(&self) -> (v: Vec3)
        ensures
            (v.x@, v.y@, v.z@) == spec_backward(*self),
    {
        self.forward().negate()
    }

    /// The rotated standard up basis vector.
    pub fn up(&self) -> (v: Vec3)
        ensures
            (v.x@, v.y@, v.z@) == spec_up(*self),
    {
        let two = Scalar { bits: TWO };
        Vec3 {
            x: two.mul(self.x).mul(self.y).sub(two.mul(self.z).mul(self.w)),
            y: Scalar::one().sub(two.mul(self.x).mul(self.x).add(two.mul(self.z).mul(self.z))),
            z: two.mul(self.y).mul(self.z).add(two.mul(self.x).mul(self.w)),
        }
    }

    /// The rotated standard down basis vector.
    pub fn down(&self) -> (v: Vec3)
        ensures
            (v.x@, v.y@, v.z@) == spec_down(*self),
    {
        self.up().negate()
    }

    /// The rotated standard right basis vector.
    pub fn right(&self) -> (v: Vec3)
        ensures
            (v.x@, v.y@, v.z@) == spec_right(*self),
    {
        self.left().negate()
    }

    /// The rotated standard left basis vector.
    pub fn left(&self) -> (v: Vec3)
        ensures
            (v.x@, v.y@, v.z@) == spec_left(*self),
    {
        let two = Scalar { bits: TWO };
        Vec3 {
            x: Scalar::one().sub(two.mul(self.y).mul(self.y).add(two.mul(self.z).mul(self.z))),
            y: two.mul(self.x).mul(self.y).add(two.mul(self.z).mul(self.w)),
            z: two.mul(self.x).mul(self.z).sub(two.mul(self.y).mul(self.w)),
        }
    }

    /// Componentwise sum; the result is in general not unit length.
    pub fn add(&self, r: &Quaternion) -> (q: Quaternion)
        ensures
            q.x@ == fx_add(self.x@, r.x@),
            q.y@ == fx_add(self.y@, r.y@),
            q.z@ == fx_add(self.z@, r.z@),
            q.w@ == fx_add(self.w@, r.w@),
    {
        Quaternion {
            x: self.x.add(r.x),
            y: self.y.add(r.y),
            z: self.z.add(r.z),
            w: self.w.add(r.w),
        }
    }

    /// Componentwise difference; the result is in general not unit length.
    pub fn sub(&self, r: &Quaternion) -> (q: Quaternion)
        ensures
            q.x@ == fx_sub(self.x@, r.x@),
            q.y@ == fx_sub(self.y@, r.y@),
            q.z@ == fx_sub(self.z@, r.z@),
            q.w@ == fx_sub(self.w@, r.w@),
    {
        Quaternion {
            x: self.x.sub(r.x),
            y: self.y.sub(r.y),
            z: self.z.sub(r.z),
            w: self.w.sub(r.w),
        }
    }

    /// The Hamilton product `self * r`: applies `r` first, then `self`.
    pub fn mul(&self, r: &Quaternion) -> (q: Quaternion)
        ensures
            (q.x@, q.y@, q.z@, q.w@) == spec_quat_mul(*self, *r),
    {
        Quaternion {
            x: self.w.mul(r.x).add(self.x.mul(r.w)).add(self.y.mul(r.z)).sub(self.z.mul(r.y)),
            y: self.w.mul(r.y).add(self.y.mul(r.w)).add(self.z.mul(r.x)).sub(self.x.mul(r.z)),
            z: self.w.mul(r.z).add(self.z.mul(r.w)).add(self.x.mul(r.y)).sub(self.y.mul(r.x)),
            w: self.w.mul(r.w).sub(self.x.mul(r.x)).sub(self.y.mul(r.y)).sub(self.z.mul(r.z)),
        }
    }

    /// The quaternion scaled by a scalar; the result is in general not
    /// unit length.
    pub fn scale(&self, s: Scalar) -> (q: Quaternion)
        ensures
            q.x@ == fx_mul(self.x@, s@),
            q.y@ == fx_mul(self.y@, s@),
            q.z@ == fx_mul(self.z@, s@),
            q.w@ == fx_mul(self.w@, s@),
    {
        Quaternion {
            x: self.x.mul(s),
            y: self.y.mul(s),
            z: self.z.mul(s),
            w: self.w.mul(s),
        }
    }
}

} // verus!
