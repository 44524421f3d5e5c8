//! Intersection tests on the collision primitives. Touching at a boundary
//! counts as intersecting in both tests.

use vstd::prelude::*;
use crate::collider::AABB;
use crate::collider::Sphere;
use crate::collider::aabb_wf;
use crate::scalar::fx_abs;
use crate::scalar::fx_add;
use crate::scalar::fx_mul;
use crate::scalar::fx_sub;
use crate::vec3::Vec3;
use crate::vec3::spec_distance_squared;

verus! {

/// Two boxes intersect when no world axis separates them: on every axis
/// the distance of the centers is at most the sum of the half-extents.
pub open spec fn spec_intersects_aabb(a: AABB, b: AABB) -> bool {
    &&& fx_abs(fx_sub(a.center.x@, b.center.x@)) <= fx_add(a.size.x@, b.size.x@)
    &&& fx_abs(fx_sub(a.center.y@, b.center.y@)) <= fx_add(a.size.y@, b.size.y@)
    &&& fx_abs(fx_sub(a.center.z@, b.center.z@)) <= fx_add(a.size.z@, b.size.z@)
}

/// Two spheres intersect when the squared distance of their centers is at
/// most the square of the sum of their radii.
pub open spec fn spec_intersects_sphere(a: Sphere, b: Sphere) -> bool {
    spec_distance_squared(b.center, a.center) <= fx_mul(
        fx_add(a.radius@, b.radius@),
        fx_add(a.radius@, b.radius@),
    )
}

/// The separating-axis test on two axis-aligned boxes: false as soon as
/// one axis separates them, true when none does.
#[allow(non_snake_case)]
pub fn intersects_AABB(a: &AABB, b: &AABB) -> (r: bool)
    ensures
        r == spec_intersects_aabb(*a, *b),
{
    if a.center.x.sub(b.center.x).abs().bits > a.size.x.add(b.size.x).bits {
        return false;
    }
    if a.center.y.sub(b.center.y).abs().bits > a.size.y.add(b.size.y).bits {
        return false;
    }
    if a.center.z.sub(b.center.z).abs().bits > a.size.z.add(b.size.z).bits {
        return false;
    }
    true
}

/// The squared-distance sphere test, avoiding any square root.
#[allow(non_snake_case)]
pub fn intersects_Sphere(a: &Sphere, b: &Sphere) -> (r: bool)
    ensures
        r == spec_intersects_sphere(*a, *b),
{
    let radius_sum = a.radius.add(b.radius);
    let radius_sum_squared = radius_sum.mul(radius_sum);
    let center_distance_squared = Vec3::distance_squared(&b.center, &a.center);
    center_distance_squared.bits <= radius_sum_squared.bits
}

/// A box always intersects itself: with a zero center offset no axis can
/// separate it, because half-extents are nonnegative.
pub proof fn lemma_aabb_self_intersection(b: AABB)
    requires
        aabb_wf(b),
    ensures
        spec_intersects_aabb(b, b),
{
}

/// Spheres that touch exactly — the squared center distance equals the
/// squared sum of the radii — count as intersecting.
pub proof fn lemma_sphere_boundary_touch(a: Sphere, b: Sphere)
    requires
        spec_distance_squared(b.center, a.center) == fx_mul(
            fx_add(a.radius@, b.radius@),
            fx_add(a.radius@, b.radius@),
        ),
    ensures
        spec_intersects_sphere(a, b),
{
}

} // verus!
