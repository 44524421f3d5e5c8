use spatial3d::intersects_AABB;
use spatial3d::intersects_Sphere;
use spatial3d::Scalar;
use spatial3d::Sphere;
use spatial3d::Vec3;
use spatial3d::AABB;

fn fx(i: i64) -> Scalar {
    Scalar::from_int(i)
}

fn v3(x: i64, y: i64, z: i64) -> Vec3 {
    Vec3 { x: fx(x), y: fx(y), z: fx(z) }
}

fn aabb(cx: i64, cy: i64, cz: i64, sx: i64, sy: i64, sz: i64) -> AABB {
    AABB { center: v3(cx, cy, cz), size: v3(sx, sy, sz) }
}

fn sphere(cx: i64, cy: i64, cz: i64, r: i64) -> Sphere {
    Sphere { center: v3(cx, cy, cz), radius: fx(r) }
}

#[test]
fn a_box_intersects_itself() {
    for b in [aabb(0, 0, 0, 1, 1, 1), aabb(-3, 5, 2, 0, 2, 7), aabb(9, 9, 9, 0, 0, 0)] {
        assert!(intersects_AABB(&b, &b));
    }
}

#[test]
fn boxes_separated_on_one_axis_do_not_intersect() {
    let a = aabb(0, 0, 0, 1, 1, 1);
    let b = aabb(3, 0, 0, 1, 1, 1);
    assert!(!intersects_AABB(&a, &b));
    assert!(!intersects_AABB(&b, &a));
    let c = aabb(0, 0, 3, 1, 1, 1);
    assert!(!intersects_AABB(&a, &c));
}

#[test]
fn boxes_touching_exactly_intersect() {
    let a = aabb(0, 0, 0, 1, 1, 1);
    let b = aabb(2, 0, 0, 1, 1, 1);
    assert!(intersects_AABB(&a, &b));
    let c = aabb(0, 2, 0, 1, 1, 1);
    assert!(intersects_AABB(&a, &c));
}

#[test]
fn overlapping_boxes_intersect() {
    let a = aabb(0, 0, 0, 2, 2, 2);
    let b = aabb(1, 1, 1, 2, 2, 2);
    assert!(intersects_AABB(&a, &b));
}

#[test]
fn close_spheres_intersect() {
    let a = sphere(0, 0, 0, 2);
    let b = sphere(3, 0, 0, 2);
    assert!(intersects_Sphere(&a, &b));
    assert!(intersects_Sphere(&b, &a));
}

#[test]
fn spheres_touching_exactly_intersect() {
    let a = sphere(0, 0, 0, 2);
    let b = sphere(4, 0, 0, 2);
    assert!(intersects_Sphere(&a, &b));
    let c = sphere(0, 3, 4, 3);
    let d = sphere(0, 0, 0, 2);
    assert!(intersects_Sphere(&c, &d));
}

#[test]
fn distant_spheres_do_not_intersect() {
    let a = sphere(0, 0, 0, 2);
    let b = sphere(5, 0, 0, 2);
    assert!(!intersects_Sphere(&a, &b));
}

#[test]
fn sphere_intersects_itself() {
    let s = sphere(1, 2, 3, 4);
    assert!(intersects_Sphere(&s, &s));
}
