//! Homogeneous 4x4 matrices in row-major layout: the entry at row `r` and
//! column `c` sits at index `r * 4 + c`. The kernel uses them as affine or
//! projective transforms only; contracts state every entry of every result
//! over the fixed-point spec arithmetic. Multiplication composes with the
//! column-vector convention: in `a.mul(&b)`, `b` is applied first.

use vstd::prelude::*;
use crate::scalar::SCALE;
use crate::scalar::TWO;
use crate::scalar::Scalar;
use crate::scalar::fits_i64;
use crate::scalar::fx_add;
use crate::scalar::fx_div;
use crate::scalar::fx_mul;
use crate::scalar::fx_neg;
use crate::scalar::fx_sub;
use crate::scalar::lemma_fx_mul_one;
use crate::scalar::lemma_fx_mul_zero;
use crate::trig::HALF;
use crate::trig::cos_deg;
use crate::trig::sin_deg;
use crate::trig::spec_cos_deg;
use crate::trig::spec_sin_deg;
use crate::quaternion::Quaternion;
use crate::quaternion::spec_forward;
use crate::quaternion::spec_right;
use crate::quaternion::spec_up;
use crate::vec3::Vec3;
use crate::vec3::spec_cross;
use crate::vec3::spec_cross3;
use crate::vec3::spec_norm3;

verus! {

/// A fixed-point 4x4 matrix, 16 entries in row-major order.
#[derive(Clone, Copy, Debug, PartialEq, Eq)]
pub struct Mat4x4 {
    pub m: [Scalar; 16],
}

impl View for Mat4x4 {
    type V = Seq<int>;

    open spec fn view(&self) -> Seq<int> {
        Seq::new(16, |i: int| self.m[i]@)
    }
}

/// The identity matrix.
pub open spec fn spec_identity() -> Seq<int> {
    seq![
        SCALE as int, 0, 0, 0,
        0, SCALE as int, 0, 0,
        0, 0, SCALE as int, 0,
        0, 0, 0, SCALE as int,
    ]
}

/// The matrix with `d` on the diagonal and zero elsewhere.
pub open spec fn spec_diagonal(d: int) -> Seq<int> {
    seq![
        d, 0, 0, 0,
        0, d, 0, 0,
        0, 0, d, 0,
        0, 0, 0, d,
    ]
}

/// The transpose: the entry at row `r`, column `c` becomes the entry at
/// row `c`, column `r`.
pub open spec fn spec_transpose(a: Seq<int>) -> Seq<int> {
    Seq::new(16, |i: int| a[(i % 4) * 4 + i / 4])
}

/// The affine translation by `t`: identity rotation block, `t` in the
/// fourth column.
pub open spec fn spec_translation(t: Vec3) -> Seq<int> {
    seq![
        SCALE as int, 0, 0, t.x@,
        0, SCALE as int, 0, t.y@,
        0, 0, SCALE as int, t.z@,
        0, 0, 0, SCALE as int,
    ]
}

/// The non-uniform scale by `s`.
pub open spec fn spec_scale(s: Vec3) -> Seq<int> {
    seq![
        s.x@, 0, 0, 0,
        0, s.y@, 0, 0,
        0, 0, s.z@, 0,
        0, 0, 0, SCALE as int,
    ]
}

/// The mirror through the origin: all three axes negated.
pub open spec fn spec_mirror() -> Seq<int> {
    seq![
        -(SCALE as int), 0, 0, 0,
        0, -(SCALE as int), 0, 0,
        0, 0, -(SCALE as int), 0,
        0, 0, 0, SCALE as int,
    ]
}

/// The orthographic projection of the axis-aligned frustum onto clip
/// space, in the standard symmetric derivation.
pub open spec fn spec_ortho(
    left: int,
    right: int,
    bottom: int,
    top: int,
    z_near: int,
    z_far: int,
) -> Seq<int> {
    let width = fx_sub(right, left);
    let height = fx_sub(top, bottom);
    let depth = fx_sub(z_far, z_near);
    seq![
        fx_div(TWO as int, width), 0, 0, fx_div(fx_neg(fx_add(right, left)), width),
        0, fx_div(TWO as int, height), 0, fx_div(fx_neg(fx_add(top, bottom)), height),
        0, 0, fx_div(fx_neg(TWO as int), depth), fx_div(fx_neg(fx_add(z_far, z_near)), depth),
        0, 0, 0, SCALE as int,
    ]
}

/// The perspective projection for a vertical field of view given in
/// degrees: a projective matrix whose last row keeps the eye-space depth,
/// as the rendering collaborator expects.
pub open spec fn spec_perspective(fovy: int, aspect_ratio: int, z_near: int, z_far: int) -> Seq<
    int,
> {
    let half = fx_mul(fovy, HALF as int);
    let y_scale = fx_div(spec_cos_deg(half), spec_sin_deg(half));
    let x_scale = fx_div(y_scale, aspect_ratio);
    let frustum = fx_sub(z_far, z_near);
    seq![
        x_scale, 0, 0, 0,
        0, y_scale, 0, 0,
        0, 0, fx_div(fx_add(z_far, z_near), frustum),
            fx_div(fx_mul(fx_mul(fx_neg(TWO as int), z_near), z_far), frustum),
        0, 0, SCALE as int, 0,
    ]
}

/// The view matrix looking from `eye` along `look`: the rows are the
/// camera basis and the fourth column undoes the eye translation.
pub open spec fn spec_look_at(eye: Vec3, look: Vec3, up: Vec3) -> Seq<int> {
    let l = spec_norm3(look.x@, look.y@, look.z@);
    let r = spec_cross(look, up);
    let u0 = spec_cross3(l.0, l.1, l.2, r.0, r.1, r.2);
    let u = spec_norm3(u0.0, u0.1, u0.2);
    seq![
        r.0, u.0, fx_neg(l.0),
            fx_add(fx_sub(fx_mul(fx_neg(r.0), eye.x@), fx_mul(u.0, eye.y@)), fx_mul(l.0, eye.z@)),
        r.1, u.1, fx_neg(l.1),
            fx_add(fx_sub(fx_mul(fx_neg(r.1), eye.x@), fx_mul(u.1, eye.y@)), fx_mul(l.1, eye.z@)),
        r.2, u.2, fx_neg(l.2),
            fx_add(fx_sub(fx_mul(fx_neg(r.2), eye.x@), fx_mul(u.2, eye.y@)), fx_mul(l.2, eye.z@)),
        0, 0, 0, SCALE as int,
    ]
}

/// The view matrix of a camera at `position` with orientation
/// `orientation`: the rows are the quaternion's right, up and forward
/// basis vectors and the fourth column is the negated rotated position —
/// the closed-form inverse of the rigid transform.
pub open spec fn spec_camera(position: Vec3, orientation: Quaternion) -> Seq<int> {
    let r = spec_right(orientation);
    let u = spec_up(orientation);
    let f = spec_forward(orientation);
    seq![
        r.0, r.1, r.2,
            fx_sub(fx_sub(fx_mul(fx_neg(r.0), position.x@), fx_mul(r.1, position.y@)),
                fx_mul(r.2, position.z@)),
        u.0, u.1, u.2,
            fx_sub(fx_sub(fx_mul(fx_neg(u.0), position.x@), fx_mul(u.1, position.y@)),
                fx_mul(u.2, position.z@)),
        f.0, f.1, f.2,
            fx_sub(fx_sub(fx_mul(fx_neg(f.0), position.x@), fx_mul(f.1, position.y@)),
                fx_mul(f.2, position.z@)),
        0, 0, 0, SCALE as int,
    ]
}

/// The elementwise sum of two matrices.
pub open spec fn spec_mat_add(a: Seq<int>, b: Seq<int>) -> Seq<int> {
    Seq::new(16, |i: int| fx_add(a[i], b[i]))
}

/// The elementwise difference of two matrices.
pub open spec fn spec_mat_sub(a: Seq<int>, b: Seq<int>) -> Seq<int> {
    Seq::new(16, |i: int| fx_sub(a[i], b[i]))
}

/// One entry of the matrix product: the row of `a` against the column of
/// `b`, summed left to right.
pub open spec fn spec_mul_entry(a: Seq<int>, b: Seq<int>, i: int) -> int {
    let r = i / 4;
    let c = i % 4;
    fx_add(
        fx_add(
            fx_add(fx_mul(a[4 * r], b[c]), fx_mul(a[4 * r + 1], b[4 + c])),
            fx_mul(a[4 * r + 2], b[8 + c]),
        ),
        fx_mul(a[4 * r + 3], b[12 + c]),
    )
}

/// The matrix product `a * b`: `b` is applied first, then `a`.
pub open spec fn spec_mat_mul(a: Seq<int>, b: Seq<int>) -> Seq<int> {
    Seq::new(16, |i: int| spec_mul_entry(a, b, i))
}

/// One entry of the product of two matrices.
fn entry_dot(a: &Mat4x4, b: &Mat4x4, row: usize, col: usize) -> (e: Scalar)
    requires
        row < 4,
        col < 4,
    ensures
        e@ == spec_mul_entry(a@, b@, 4 * row + col),
{
    proof {
        vstd::arithmetic::div_mod::lemma_fundamental_div_mod_converse(
            4 * row + col,
            4,
            row as int,
            col as int,
        );
    }
    a.m[4 * row].mul(b.m[col]).add(a.m[4 * row + 1].mul(b.m[4 + col])).add(
        a.m[4 * row + 2].mul(b.m[8 + col]),
    ).add(a.m[4 * row + 3].mul(b.m[12 + col]))
}

impl Mat4x4 {
    /// A fresh matrix, initialized to the identity.
    pub fn new() -> (r: Mat4x4)
        ensures
            r@ == spec_identity(),
    {
        Mat4x4::identity()
    }

    /// The identity matrix.
    pub fn identity() -> (r: Mat4x4)
        ensures
            r@ == spec_identity(),
    {
        let one = Scalar::one();
        let zero = Scalar::zero();
        let r = Mat4x4 {
            m: [
                one, zero, zero, zero,
                zero, one, zero, zero,
                zero, zero, one, zero,
                zero, zero, zero, one,
            ],
        };
        proof {
            assert(r@ =~= spec_identity());
        }
        r
    }

    /// The matrix with `d` on the diagonal.
    pub fn diagonal(d: Scalar) -> (r: Mat4x4)
        ensures
            r@ == spec_diagonal(d@),
    {
        let zero = Scalar::zero();
        let r = Mat4x4 {
            m: [
                d, zero, zero, zero,
                zero, d, zero, zero,
                zero, zero, d, zero,
                zero, zero, zero, d,
            ],
        };
        proof {
            assert(r@ =~= spec_diagonal(d@));
        }
        r
    }

    /// The transpose of `m`.
    pub fn transpose(m: &Mat4x4) -> (r: Mat4x4)
        ensures
            r@ == spec_transpose(m@),
    {
        let r = Mat4x4 {
            m: [
                m.m[0], m.m[4], m.m[8], m.m[12],
                m.m[1], m.m[5], m.m[9], m.m[13],
                m.m[2], m.m[6], m.m[10], m.m[14],
                m.m[3], m.m[7], m.m[11], m.m[15],
            ],
        };
        proof {
            assert(r@ =~= spec_transpose(m@));
        }
        r
    }

    /// The affine translation by `t`.
    pub fn translation(t: &Vec3) -> (r: Mat4x4)
        ensures
            r@ == spec_translation(*t),
    {
        let one = Scalar::one();
        let zero = Scalar::zero();
        let r = Mat4x4 {
            m: [
                one, zero, zero, t.x,
                zero, one, zero, t.y,
                zero, zero, one, t.z,
                zero, zero, zero, one,
            ],
        };
        proof {
            assert(r@ =~= spec_translation(*t));
        }
        r
    }

    /// The non-uniform scale by `s`.
    pub fn scale(s: &Vec3) -> (r: Mat4x4)
        ensures
            r@ == spec_scale(*s),
    {
        let one = Scalar::one();
        let zero = Scalar::zero();
        let r = Mat4x4 {
            m: [
                s.x, zero, zero, zero,
                zero, s.y, zero, zero,
                zero, zero, s.z, zero,
                zero, zero, zero, one,
            ],
        };
        proof {
            assert(r@ =~= spec_scale(*s));
        }
        r
    }

    /// The mirror through the origin.
    pub fn mirror() -> (r: Mat4x4)
        ensures
            r@ == spec_mirror(),
    {
        let neg_one = Scalar::one().neg();
        let one = Scalar::one();
        let zero = Scalar::zero();
        let r = Mat4x4 {
            m: [
                neg_one, zero, zero, zero,
                zero, neg_one, zero, zero,
                zero, zero, neg_one, zero,
                zero, zero, zero, one,
            ],
        };
        proof {
            assert(r@ =~= spec_mirror());
        }
        r
    }

    /// The orthographic projection of the given frustum.
    pub fn ortho(
        left: Scalar,
        right: Scalar,
        bottom: Scalar,
        top: Scalar,
        z_near: Scalar,
        z_far: Scalar,
    ) -> (r: Mat4x4)
        ensures
            r@ == spec_ortho(left@, right@, bottom@, top@, z_near@, z_far@),
    {
        let two = Scalar { bits: TWO };
        let one = Scalar::one();
        let zero = Scalar::zero();
        let width = right.sub(left);
        let height = top.sub(bottom);
        let depth = z_far.sub(z_near);
        let r = Mat4x4 {
            m: [
                two.div(width), zero, zero, right.add(left).neg().div(width),
                zero, two.div(height), zero, top.add(bottom).neg().div(height),
                zero, zero, two.neg().div(depth), z_far.add(z_near).neg().div(depth),
                zero, zero, zero, one,
            ],
        };
        proof {
            assert(r@ =~= spec_ortho(left@, right@, bottom@, top@, z_near@, z_far@));
        }
        r
    }

    /// The perspective projection for a vertical field of view in degrees.
    pub fn perspective(fovy: Scalar, aspect_ratio: Scalar, z_near: Scalar, z_far: Scalar) -> (r:
        Mat4x4)
        ensures
            r@ == spec_perspective(fovy@, aspect_ratio@, z_near@, z_far@),
    {
        let half = fovy.mul(Scalar { bits: HALF });
        let y_scale = cos_deg(half).div(sin_deg(half));
        let x_scale = y_scale.div(aspect_ratio);
        let frustum = z_far.sub(z_near);
        let two = Scalar { bits: TWO };
        let one = Scalar::one();
        let zero = Scalar::zero();
        let r = Mat4x4 {
            m: [
                x_scale, zero, zero, zero,
                zero, y_scale, zero, zero,
                zero, zero, z_far.add(z_near).div(frustum),
                    two.neg().mul(z_near).mul(z_far).div(frustum),
                zero, zero, one, zero,
            ],
        };
        proof {
            assert(r@ =~= spec_perspective(fovy@, aspect_ratio@, z_near@, z_far@));
        }
        r
    }

    /// The view matrix looking from `eye` along the direction `look` with
    /// the given approximate up direction.
    pub fn look_at(eye: &Vec3, look: &Vec3, up: &Vec3) -> (r: Mat4x4)
        ensures
            r@ == spec_look_at(*eye, *look, *up),
    {
        let l = look.normalized();
        let rv = Vec3::cross(look, up);
        let u = Vec3::cross(&l, &rv).normalized();
        let one = Scalar::one();
        let zero = Scalar::zero();
        let r = Mat4x4 {
            m: [
                rv.x, u.x, l.x.neg(),
                    rv.x.neg().mul(eye.x).sub(u.x.mul(eye.y)).add(l.x.mul(eye.z)),
                rv.y, u.y, l.y.neg(),
                    rv.y.neg().mul(eye.x).sub(u.y.mul(eye.y)).add(l.y.mul(eye.z)),
                rv.z, u.z, l.z.neg(),
                    rv.z.neg().mul(eye.x).sub(u.z.mul(eye.y)).add(l.z.mul(eye.z)),
                zero, zero, zero, one,
            ],
        };
        proof {
            assert(r@ =~= spec_look_at(*eye, *look, *up));
        }
        r
    }

    /// The view matrix of a camera at `position` with the given
    /// orientation, built directly from the quaternion's basis vectors.
    pub fn camera(position: &Vec3, orientation: &Quaternion) -> (r: Mat4x4)
        ensures
            r@ == spec_camera(*position, *orientation),
    {
        let rv = orientation.right();
        let u = orientation.up();
        let f = orientation.forward();
        let one = Scalar::one();
        let zero = Scalar::zero();
        let r = Mat4x4 {
            m: [
                rv.x, rv.y, rv.z,
                    rv.x.neg().mul(position.x).sub(rv.y.mul(position.y)).sub(rv.z.mul(position.z)),
                u.x, u.y, u.z,
                    u.x.neg().mul(position.x).sub(u.y.mul(position.y)).sub(u.z.mul(position.z)),
                f.x, f.y, f.z,
                    f.x.neg().mul(position.x).sub(f.y.mul(position.y)).sub(f.z.mul(position.z)),
                zero, zero, zero, one,
            ],
        };
        proof {
            assert(r@ =~= spec_camera(*position, *orientation));
        }
        r
    }

    /// The elementwise sum.
    pub fn add(&self, r: &Mat4x4) -> (p: Mat4x4)
        ensures
            p@ == spec_mat_add(self@, r@),
    {
        let p = Mat4x4 {
            m: [
                self.m[0].add(r.m[0]), self.m[1].add(r.m[1]),
                self.m[2].add(r.m[2]), self.m[3].add(r.m[3]),
                self.m[4].add(r.m[4]), self.m[5].add(r.m[5]),
                self.m[6].add(r.m[6]), self.m[7].add(r.m[7]),
                self.m[8].add(r.m[8]), self.m[9].add(r.m[9]),
                self.m[10].add(r.m[10]), self.m[11].add(r.m[11]),
                self.m[12].add(r.m[12]), self.m[13].add(r.m[13]),
                self.m[14].add(r.m[14]), self.m[15].add(r.m[15]),
            ],
        };
        proof {
            assert(p@ =~= spec_mat_add(self@, r@));
        }
        p
    }

    /// The elementwise difference.
    pub fn sub(&self, r: &Mat4x4) -> (p: Mat4x4)
        ensures
            p@ == spec_mat_sub(self@, r@),
    {
        let p = Mat4x4 {
            m: [
                self.m[0].sub(r.m[0]), self.m[1].sub(r.m[1]),
                self.m[2].sub(r.m[2]), self.m[3].sub(r.m[3]),
                self.m[4].sub(r.m[4]), self.m[5].sub(r.m[5]),
                self.m[6].sub(r.m[6]), self.m[7].sub(r.m[7]),
                self.m[8].sub(r.m[8]), self.m[9].sub(r.m[9]),
                self.m[10].sub(r.m[10]), self.m[11].sub(r.m[11]),
                self.m[12].sub(r.m[12]), self.m[13].sub(r.m[13]),
                self.m[14].sub(r.m[14]), self.m[15].sub(r.m[15]),
            ],
        };
        proof {
            assert(p@ =~= spec_mat_sub(self@, r@));
        }
        p
    }

    /// The matrix product `self * r`: `r` is applied first, then `self`.
    pub fn mul(&self, r: &Mat4x4) -> (p: Mat4x4)
        ensures
            p@ == spec_mat_mul(self@, r@),
    {
        let p = Mat4x4 {
            m: [
                entry_dot(self, r, 0, 0), entry_dot(self, r, 0, 1),
                entry_dot(self, r, 0, 2), entry_dot(self, r, 0, 3),
                entry_dot(self, r, 1, 0), entry_dot(self, r, 1, 1),
                entry_dot(self, r, 1, 2), entry_dot(self, r, 1, 3),
                entry_dot(self, r, 2, 0), entry_dot(self, r, 2, 1),
                entry_dot(self, r, 2, 2), entry_dot(self, r, 2, 3),
                entry_dot(self, r, 3, 0), entry_dot(self, r, 3, 1),
                entry_dot(self, r, 3, 2), entry_dot(self, r, 3, 3),
            ],
        };
        proof {
            assert(p@ =~= spec_mat_mul(self@, r@));
        }
        p
    }
}

/// Multiplying by the identity on the left returns the matrix unchanged.
pub proof fn lemma_mul_identity_left(m: Seq<int>)
    requires
        m.len() == 16,
        forall|i: int| 0 <= i < 16 ==> fits_i64(#[trigger] m[i]),
    ensures
        spec_mat_mul(spec_identity(), m) == m,
{
    assert forall|i: int| 0 <= i < 16 implies spec_mul_entry(spec_identity(), m, i) == m[i] by {
        let r = i / 4;
        let c = i % 4;
        lemma_fx_mul_zero(m[c]);
        lemma_fx_mul_zero(m[4 + c]);
        lemma_fx_mul_zero(m[8 + c]);
        lemma_fx_mul_zero(m[12 + c]);
        lemma_fx_mul_one(m[4 * r + c]);
    }
    assert(spec_mat_mul(spec_identity(), m) =~= m);
}

/// Multiplying by the identity on the right returns the matrix unchanged.
pub proof fn lemma_mul_identity_right(m: Seq<int>)
    requires
        m.len() == 16,
        forall|i: int| 0 <= i < 16 ==> fits_i64(#[trigger] m[i]),
    ensures
        spec_mat_mul(m, spec_identity()) == m,
{
    assert forall|i: int| 0 <= i < 16 implies spec_mul_entry(m, spec_identity(), i) == m[i] by {
        let r = i / 4;
        let c = i % 4;
        lemma_fx_mul_zero(m[4 * r]);
        lemma_fx_mul_zero(m[4 * r + 1]);
        lemma_fx_mul_zero(m[4 * r + 2]);
        lemma_fx_mul_zero(m[4 * r + 3]);
        lemma_fx_mul_one(m[4 * r + c]);
    }
    assert(spec_mat_mul(m, spec_identity()) =~= m);
}

} // verus!
