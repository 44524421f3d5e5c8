use spatial3d::Camera;
use spatial3d::Mat4x4;
use spatial3d::Quaternion;
use spatial3d::Scalar;
use spatial3d::Transform;
use spatial3d::Vec3;

fn fx(i: i64) -> Scalar {
    Scalar::from_int(i)
}

fn v3(x: i64, y: i64, z: i64) -> Vec3 {
    Vec3 { x: fx(x), y: fx(y), z: fx(z) }
}

fn plain_transform() -> Transform {
    Transform { position: v3(0, 0, 0), scale: v3(1, 1, 1), orientation: Quaternion::new() }
}

#[test]
fn model_of_plain_transform_is_identity() {
    assert_eq!(plain_transform().model(), Mat4x4::identity());
}

#[test]
fn model_carries_position_and_scale() {
    let t = Transform { position: v3(5, 6, 7), scale: v3(2, 2, 2), orientation: Quaternion::new() };
    let m = t.model();
    assert_eq!(m.m[0], fx(2));
    assert_eq!(m.m[5], fx(2));
    assert_eq!(m.m[10], fx(2));
    assert_eq!(m.m[3], fx(5));
    assert_eq!(m.m[7], fx(6));
    assert_eq!(m.m[11], fx(7));
    assert_eq!(m.m[15], fx(1));
}

#[test]
fn move_towards_normalizes_the_direction() {
    let mut t = plain_transform();
    t.move_towards(&v3(2, 0, 0), fx(3));
    assert_eq!(t.position, v3(3, 0, 0));
    assert_eq!(t.scale, v3(1, 1, 1));
    t.move_towards(&v3(0, -5, 0), fx(2));
    assert_eq!(t.position, v3(3, -2, 0));
}

#[test]
fn rotate_matches_the_quaternion_rotation() {
    let mut t = plain_transform();
    let expected = t.orientation.rotate(&v3(0, 0, 1), fx(90));
    t.rotate(&v3(0, 0, 1), fx(90));
    assert_eq!(t.orientation, expected);
    assert_eq!(t.position, v3(0, 0, 0));
    assert_eq!(t.scale, v3(1, 1, 1));
}

#[test]
fn ortho_camera_is_projection_times_view() {
    let t = plain_transform();
    let c = Camera::new_ortho(&t, 4, 2, fx(1), fx(9));
    let expected = Mat4x4::ortho(fx(0), fx(4), fx(0), fx(2), fx(1), fx(9)).mul(
        &Mat4x4::camera(&t.position, &t.orientation),
    );
    assert_eq!(c.view_projection, expected);
}

#[test]
fn perspective_camera_is_projection_times_view() {
    let t = Transform { position: v3(0, 0, -5), scale: v3(1, 1, 1), orientation: Quaternion::new() };
    let c = Camera::new_perspective(&t, fx(90), 8, 4, fx(1), fx(100));
    let expected = Mat4x4::perspective(fx(90), fx(2), fx(1), fx(100)).mul(
        &Mat4x4::camera(&t.position, &t.orientation),
    );
    assert_eq!(c.view_projection, expected);
}

#[test]
fn mvp_composes_camera_and_model() {
    let t = Transform { position: v3(1, 2, 3), scale: v3(1, 1, 1), orientation: Quaternion::new() };
    let c = Camera::new_ortho(&plain_transform(), 2, 2, fx(1), fx(3));
    let mvp = t.mvp(&c);
    let expected = c.view_projection.mul(&t.model());
    assert_eq!(mvp, expected);
}

#[test]
fn mvp_of_plain_transform_under_plain_camera_is_the_view_projection() {
    let t = plain_transform();
    let c = Camera::new_ortho(&t, 2, 2, fx(1), fx(3));
    assert_eq!(t.mvp(&c), c.view_projection);
}
