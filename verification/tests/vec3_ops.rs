use spatial3d::Scalar;
use spatial3d::Vec3;
use spatial3d::Vec4;

fn fx(i: i64) -> Scalar {
    Scalar::from_int(i)
}

fn v3(x: i64, y: i64, z: i64) -> Vec3 {
    Vec3 { x: fx(x), y: fx(y), z: fx(z) }
}

const TOL: i64 = 43000;

fn approx(a: Scalar, b: Scalar) -> bool {
    (a.bits - b.bits).abs() <= TOL
}

fn approx_v(a: Vec3, b: Vec3) -> bool {
    approx(a.x, b.x) && approx(a.y, b.y) && approx(a.z, b.z)
}

#[test]
fn new_is_zero_and_set_replaces() {
    let mut v = Vec3::new();
    assert_eq!(v, v3(0, 0, 0));
    v.set(fx(1), fx(2), fx(3));
    assert_eq!(v, v3(1, 2, 3));
}

#[test]
fn vec4_new_is_zero() {
    let v = Vec4::new();
    assert_eq!(v.x, fx(0));
    assert_eq!(v.y, fx(0));
    assert_eq!(v.z, fx(0));
    assert_eq!(v.w, fx(0));
}

#[test]
fn componentwise_algebra_is_exact() {
    assert_eq!(v3(1, 2, 3).add(&v3(4, 5, 6)), v3(5, 7, 9));
    assert_eq!(v3(4, 5, 6).sub(&v3(1, 2, 3)), v3(3, 3, 3));
    assert_eq!(v3(1, -2, 3).scale(fx(2)), v3(2, -4, 6));
    assert_eq!(v3(2, -4, 6).divide(fx(2)), v3(1, -2, 3));
    assert_eq!(v3(1, -2, 3).negate(), v3(-1, 2, -3));
    assert_eq!(v3(-1, 2, -3).abs(), v3(1, 2, 3));
}

#[test]
fn divide_by_zero_saturates_components() {
    let v = v3(1, -1, 0).divide(Scalar::zero());
    assert_eq!(v.x.bits, i64::MAX);
    assert_eq!(v.y.bits, -i64::MAX);
    assert_eq!(v.z.bits, 0);
}

#[test]
fn dot_and_cross_are_exact() {
    assert_eq!(Vec3::dot(&v3(1, 2, 3), &v3(4, 5, 6)), fx(32));
    assert_eq!(Vec3::cross(&v3(1, 0, 0), &v3(0, 1, 0)), v3(0, 0, 1));
    assert_eq!(Vec3::cross(&v3(0, 1, 0), &v3(1, 0, 0)), v3(0, 0, -1));
}

#[test]
fn length_and_distance() {
    assert_eq!(v3(3, 4, 0).length(), fx(5));
    assert_eq!(v3(3, 4, 0).length_squared(), fx(25));
    assert_eq!(Vec3::distance(&v3(1, 1, 1), &v3(1, 5, 4)), fx(5));
    assert_eq!(Vec3::distance_squared(&v3(0, 0, 0), &v3(3, 0, 0)), fx(9));
}

#[test]
fn lerp_interpolates_and_extrapolates() {
    let a = v3(0, 0, 0);
    let b = v3(2, 4, 6);
    assert_eq!(Vec3::lerp(&a, &b, Scalar::zero()), a);
    assert_eq!(Vec3::lerp(&a, &b, Scalar::one()), b);
    assert_eq!(Vec3::lerp(&a, &b, Scalar::new(spatial3d::scalar::SCALE / 2)), v3(1, 2, 3));
    assert_eq!(Vec3::lerp(&a, &b, fx(2)), v3(4, 8, 12));
}

#[test]
fn normalized_has_unit_length() {
    let n = v3(1, 2, 3).normalized();
    assert!(approx(n.length(), Scalar::one()));
}

#[test]
fn normalization_is_idempotent_within_tolerance() {
    for v in [v3(1, 2, 3), v3(-5, 0, 12), v3(7, -7, 7)] {
        let once = v.normalized();
        let twice = once.normalized();
        assert!(approx_v(twice, once));
    }
}

#[test]
fn rotation_preserves_length_within_tolerance() {
    let axis = v3(0, 0, 1);
    for (v, deg) in [(v3(1, 2, 3), 33i64), (v3(-4, 5, 0), 120), (v3(2, 0, 2), 270)] {
        let r = v.rotate(&axis, fx(deg));
        assert!(approx(r.length(), v.length()));
    }
}

#[test]
fn quarter_turn_about_z_is_exact() {
    let r = v3(1, 0, 0).rotate(&v3(0, 0, 1), fx(90));
    assert_eq!(r, v3(0, 1, 0));
}

#[test]
fn rotation_about_arbitrary_axis_within_tolerance() {
    let axis = v3(1, 1, 1).normalized();
    let r = v3(1, 0, 0).rotate(&axis, fx(120));
    assert!(approx_v(r, v3(0, 1, 0)));
}
