use spatial3d::scalar::SCALE;
use spatial3d::Scalar;

fn fx(i: i64) -> Scalar {
    Scalar::from_int(i)
}

/// About 1e-5 in raw fixed-point steps.
const TOL: i64 = 43000;

fn approx(a: Scalar, b: Scalar) -> bool {
    (a.bits - b.bits).abs() <= TOL
}

#[test]
fn from_int_scales_by_one_unit() {
    assert_eq!(fx(0).bits, 0);
    assert_eq!(fx(1).bits, SCALE);
    assert_eq!(fx(-3).bits, -3 * SCALE);
}

#[test]
fn add_sub_neg_abs_are_exact() {
    assert_eq!(fx(2).add(fx(3)), fx(5));
    assert_eq!(fx(2).sub(fx(5)), fx(-3));
    assert_eq!(fx(4).neg(), fx(-4));
    assert_eq!(fx(-4).abs(), fx(4));
    assert_eq!(fx(4).abs(), fx(4));
}

#[test]
fn mul_and_div_are_exact_on_whole_numbers() {
    assert_eq!(fx(6).mul(fx(7)), fx(42));
    assert_eq!(fx(-6).mul(fx(7)), fx(-42));
    assert_eq!(fx(6).div(fx(2)), fx(3));
    assert_eq!(fx(-6).div(fx(2)), fx(-3));
    assert_eq!(fx(1).div(fx(2)).bits, SCALE / 2);
}

#[test]
fn addition_saturates_instead_of_wrapping() {
    let max = Scalar::max_value();
    assert_eq!(max.add(Scalar::one()), max);
    let min = Scalar::new(i64::MIN);
    assert_eq!(min.sub(Scalar::one()), min);
    assert_eq!(min.neg().bits, i64::MAX);
}

#[test]
fn division_by_zero_scales_by_largest_value() {
    assert_eq!(fx(1).div(Scalar::zero()).bits, i64::MAX);
    assert_eq!(fx(-1).div(Scalar::zero()).bits, -i64::MAX);
    assert_eq!(Scalar::zero().div(Scalar::zero()).bits, 0);
}

#[test]
fn sqrt_of_perfect_squares_is_exact() {
    assert_eq!(fx(0).sqrt(), fx(0));
    assert_eq!(fx(1).sqrt(), fx(1));
    assert_eq!(fx(4).sqrt(), fx(2));
    assert_eq!(fx(9).sqrt(), fx(3));
    assert_eq!(fx(144).sqrt(), fx(12));
}

#[test]
fn sqrt_squares_back_within_tolerance() {
    let s = fx(2).sqrt();
    assert!(approx(s.mul(s), fx(2)));
    let t = fx(10).sqrt();
    assert!(approx(t.mul(t), fx(10)));
}
