//! Collision primitives: an axis-aligned box given by its center and
//! half-extents, and a sphere given by its center and radius.

use vstd::prelude::*;
use crate::scalar::Scalar;
use crate::vec3::Vec3;

verus! {

/// An axis-aligned box: a center and per-axis half-extents, each of which
/// must be nonnegative.
#[derive(Clone, Copy, Debug, PartialEq, Eq, Structural)]
pub struct AABB {
    pub center: Vec3,
    pub size: Vec3,
}

/// A sphere: a center and a nonnegative radius.
#[derive(Clone, Copy, Debug, PartialEq, Eq, Structural)]
pub struct Sphere {
    pub center: Vec3,
    pub radius: Scalar,
}

/// Well-formedness of a box: every half-extent is nonnegative.
pub open spec fn aabb_wf(b: AABB) -> bool {
    b.size.x@ >= 0 && b.size.y@ >= 0 && b.size.z@ >= 0
}

/// Well-formedness of a sphere: the radius is nonnegative.
pub open spec fn sphere_wf(s: Sphere) -> bool {
    s.radius@ >= 0
}

} // verus!
