use spatial3d::scalar::SCALE;
use spatial3d::trig::cos_deg;
use spatial3d::trig::sin_deg;
use spatial3d::Scalar;

fn fx(i: i64) -> Scalar {
    Scalar::from_int(i)
}

const TOL: i64 = 43000;

fn approx(a: Scalar, b: Scalar) -> bool {
    (a.bits - b.bits).abs() <= TOL
}

#[test]
fn cardinal_angles_are_exact() {
    assert_eq!(sin_deg(fx(0)).bits, 0);
    assert_eq!(cos_deg(fx(0)).bits, SCALE);
    assert_eq!(sin_deg(fx(90)).bits, SCALE);
    assert_eq!(cos_deg(fx(90)).bits, 0);
    assert_eq!(sin_deg(fx(180)).bits, 0);
    assert_eq!(cos_deg(fx(180)).bits, -SCALE);
    assert_eq!(sin_deg(fx(270)).bits, -SCALE);
    assert_eq!(cos_deg(fx(270)).bits, 0);
    assert_eq!(sin_deg(fx(360)).bits, 0);
    assert_eq!(cos_deg(fx(360)).bits, SCALE);
}

#[test]
fn known_values_within_tolerance() {
    assert!(approx(sin_deg(fx(30)), Scalar::new(SCALE / 2)));
    assert!(approx(cos_deg(fx(60)), Scalar::new(SCALE / 2)));
    assert!(approx(sin_deg(fx(45)), cos_deg(fx(45))));
}

#[test]
fn reduction_handles_negative_and_large_angles() {
    assert_eq!(sin_deg(fx(-90)).bits, -SCALE);
    assert_eq!(cos_deg(fx(-180)).bits, -SCALE);
    assert_eq!(sin_deg(fx(450)).bits, SCALE);
    assert_eq!(sin_deg(fx(-30)).bits, sin_deg(fx(330)).bits);
    assert_eq!(cos_deg(fx(-30)).bits, cos_deg(fx(330)).bits);
}

#[test]
fn pythagorean_identity_within_tolerance() {
    for deg in [7i64, 33, 100, 215, 300] {
        let s = sin_deg(fx(deg));
        let c = cos_deg(fx(deg));
        assert!(approx(s.mul(s).add(c.mul(c)), Scalar::one()));
    }
}
