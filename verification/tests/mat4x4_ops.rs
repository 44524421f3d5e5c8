use spatial3d::scalar::SCALE;
use spatial3d::Mat4x4;
use spatial3d::Scalar;
use spatial3d::Vec3;

fn fx(i: i64) -> Scalar {
    Scalar::from_int(i)
}

fn v3(x: i64, y: i64, z: i64) -> Vec3 {
    Vec3 { x: fx(x), y: fx(y), z: fx(z) }
}

fn mat(entries: [i64; 16]) -> Mat4x4 {
    let mut m = [Scalar::zero(); 16];
    let mut i: usize = 0;
    while i < 16 {
        m[i] = fx(entries[i]);
        i += 1;
    }
    Mat4x4 { m }
}

const TOL: i64 = 43000;

fn approx(a: Scalar, b: Scalar) -> bool {
    (a.bits - b.bits).abs() <= TOL
}

#[test]
fn identity_and_diagonal_entries() {
    let id = Mat4x4::identity();
    for r in 0..4usize {
        for c in 0..4usize {
            let expect = if r == c { SCALE } else { 0 };
            assert_eq!(id.m[r * 4 + c].bits, expect);
        }
    }
    assert_eq!(Mat4x4::new(), id);
    let d = Mat4x4::diagonal(fx(7));
    assert_eq!(d.m[0], fx(7));
    assert_eq!(d.m[5], fx(7));
    assert_eq!(d.m[10], fx(7));
    assert_eq!(d.m[15], fx(7));
    assert_eq!(d.m[1], fx(0));
}

#[test]
fn identity_roundtrip_leaves_any_matrix_unchanged() {
    let m = mat([1, -2, 3, -4, 5, 6, -7, 8, -9, 10, 11, -12, 13, -14, -15, 16]);
    let id = Mat4x4::identity();
    assert_eq!(id.mul(&m), m);
    assert_eq!(m.mul(&id), m);
}

#[test]
fn transpose_swaps_rows_and_columns() {
    let m = mat([0, 1, 2, 3, 4, 5, 6, 7, 8, 9, 10, 11, 12, 13, 14, 15]);
    let t = Mat4x4::transpose(&m);
    for r in 0..4usize {
        for c in 0..4usize {
            assert_eq!(t.m[r * 4 + c], m.m[c * 4 + r]);
        }
    }
}

#[test]
fn translation_and_scale_layout() {
    let t = Mat4x4::translation(&v3(1, 2, 3));
    assert_eq!(t.m[3], fx(1));
    assert_eq!(t.m[7], fx(2));
    assert_eq!(t.m[11], fx(3));
    assert_eq!(t.m[0], fx(1));
    assert_eq!(t.m[15], fx(1));
    let s = Mat4x4::scale(&v3(2, 3, 4));
    assert_eq!(s.m[0], fx(2));
    assert_eq!(s.m[5], fx(3));
    assert_eq!(s.m[10], fx(4));
    assert_eq!(s.m[15], fx(1));
}

#[test]
fn mirror_negates_the_three_axes() {
    let m = Mat4x4::mirror();
    assert_eq!(m.m[0], fx(-1));
    assert_eq!(m.m[5], fx(-1));
    assert_eq!(m.m[10], fx(-1));
    assert_eq!(m.m[15], fx(1));
}

#[test]
fn translation_composes_with_scale() {
    let m = Mat4x4::translation(&v3(10, 20, 30)).mul(&Mat4x4::scale(&v3(2, 2, 2)));
    assert_eq!(m.m[0], fx(2));
    assert_eq!(m.m[5], fx(2));
    assert_eq!(m.m[10], fx(2));
    assert_eq!(m.m[3], fx(10));
    assert_eq!(m.m[7], fx(20));
    assert_eq!(m.m[11], fx(30));
    assert_eq!(m.m[15], fx(1));
}

#[test]
fn add_and_sub_are_elementwise() {
    let a = mat([1, 2, 3, 4, 5, 6, 7, 8, 9, 10, 11, 12, 13, 14, 15, 16]);
    let b = mat([16, 15, 14, 13, 12, 11, 10, 9, 8, 7, 6, 5, 4, 3, 2, 1]);
    let s = a.add(&b);
    for i in 0..16usize {
        assert_eq!(s.m[i], fx(17));
    }
    let d = s.sub(&b);
    assert_eq!(d, a);
}

#[test]
fn ortho_of_simple_frustum_is_exact() {
    let m = Mat4x4::ortho(fx(0), fx(2), fx(0), fx(2), fx(1), fx(3));
    assert_eq!(m.m[0], fx(1));
    assert_eq!(m.m[3], fx(-1));
    assert_eq!(m.m[5], fx(1));
    assert_eq!(m.m[7], fx(-1));
    assert_eq!(m.m[10], fx(-1));
    assert_eq!(m.m[11], fx(-2));
    assert_eq!(m.m[15], fx(1));
    assert_eq!(m.m[1], fx(0));
    assert_eq!(m.m[12], fx(0));
}

#[test]
fn perspective_has_projective_last_row() {
    let m = Mat4x4::perspective(fx(90), fx(1), fx(1), fx(3));
    assert!(approx(m.m[0], fx(1)));
    assert!(approx(m.m[5], fx(1)));
    assert_eq!(m.m[10], fx(2));
    assert_eq!(m.m[11], fx(-3));
    assert_eq!(m.m[12], fx(0));
    assert_eq!(m.m[13], fx(0));
    assert_eq!(m.m[14], fx(1));
    assert_eq!(m.m[15], fx(0));
}

#[test]
fn look_at_down_positive_z() {
    let m = Mat4x4::look_at(&v3(0, 0, 0), &v3(0, 0, 1), &v3(0, 1, 0));
    assert_eq!(m.m[0], fx(-1));
    assert_eq!(m.m[5], fx(-1));
    assert_eq!(m.m[10], fx(-1));
    assert_eq!(m.m[15], fx(1));
    assert_eq!(m.m[3], fx(0));
    assert_eq!(m.m[7], fx(0));
    assert_eq!(m.m[11], fx(0));
}

#[test]
fn camera_view_of_identity_orientation() {
    let m = Mat4x4::camera(&v3(0, 0, 0), &spatial3d::Quaternion::new());
    assert_eq!(m.m[0], fx(-1));
    assert_eq!(m.m[5], fx(1));
    assert_eq!(m.m[10], fx(1));
    assert_eq!(m.m[15], fx(1));
    let t = Mat4x4::camera(&v3(2, 3, 4), &spatial3d::Quaternion::new());
    assert_eq!(t.m[3], fx(2));
    assert_eq!(t.m[7], fx(-3));
    assert_eq!(t.m[11], fx(-4));
}

#[test]
fn camera_view_of_a_compound_rotation() {
    let h = Scalar::new(SCALE / 2);
    let mut q = spatial3d::Quaternion::new();
    q.set(h, h, h.neg(), h);
    let m = Mat4x4::camera(&v3(0, 0, 0), &q);
    assert_eq!([m.m[0], m.m[1], m.m[2]], [fx(0), fx(0), fx(1)]);
    assert_eq!([m.m[4], m.m[5], m.m[6]], [fx(1), fx(0), fx(0)]);
    assert_eq!([m.m[8], m.m[9], m.m[10]], [fx(0), fx(-1), fx(0)]);
    assert_eq!([m.m[3], m.m[7], m.m[11], m.m[15]], [fx(0), fx(0), fx(0), fx(1)]);
}
