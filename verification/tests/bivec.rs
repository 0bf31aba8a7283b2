//! Bivector algebra over a plain f32 scalar implementation.

use tessa4d::linear_algebra::scalar::Scalar;
use tessa4d::transform::rotor4::{Bivec4, RotorError, ScalarPlusQuadvec4, SimpleBivec4};

const EPS: f32 = 1e-3;

/// The caller-supplied scalar representation: a machine float.
#[derive(Clone, Copy, Debug, PartialEq)]
pub struct R32(pub f32);

impl Scalar for R32 {
    fn spec_zero() -> R32 {
        R32(0.0)
    }
    fn spec_one() -> R32 {
        R32(1.0)
    }
    fn spec_two() -> R32 {
        R32(2.0)
    }
    fn spec_half() -> R32 {
        R32(0.5)
    }
    fn spec_pi() -> R32 {
        R32(std::f32::consts::PI)
    }
    fn spec_half_pi() -> R32 {
        R32(std::f32::consts::FRAC_PI_2)
    }
    fn spec_tau() -> R32 {
        R32(std::f32::consts::TAU)
    }
    fn spec_eps() -> R32 {
        R32(1e-3)
    }
    fn spec_of_usize(n: usize) -> R32 {
        R32(n as f32)
    }
    fn spec_neg(self) -> R32 {
        R32(-self.0)
    }
    fn spec_add(self, other: R32) -> R32 {
        R32(self.0 + other.0)
    }
    fn spec_sub(self, other: R32) -> R32 {
        R32(self.0 - other.0)
    }
    fn spec_mul(self, other: R32) -> R32 {
        R32(self.0 * other.0)
    }
    fn spec_div(self, other: R32) -> R32 {
        R32(self.0 / other.0)
    }
    fn spec_abs(self) -> R32 {
        R32(self.0.abs())
    }
    fn spec_sqrt(self) -> R32 {
        R32(self.0.sqrt())
    }
    fn spec_sin(self) -> R32 {
        R32(self.0.sin())
    }
    fn spec_cos(self) -> R32 {
        R32(self.0.cos())
    }
    fn spec_atan(self) -> R32 {
        R32(self.0.atan())
    }
    fn spec_atan2(self, other: R32) -> R32 {
        R32(self.0.atan2(other.0))
    }
    fn spec_lt(self, other: R32) -> bool {
        self.0 < other.0
    }
    fn zero() -> R32 {
        R32(0.0)
    }
    fn one() -> R32 {
        R32(1.0)
    }
    fn two() -> R32 {
        R32(2.0)
    }
    fn half() -> R32 {
        R32(0.5)
    }
    fn pi() -> R32 {
        R32(std::f32::consts::PI)
    }
    fn half_pi() -> R32 {
        R32(std::f32::consts::FRAC_PI_2)
    }
    fn tau() -> R32 {
        R32(std::f32::consts::TAU)
    }
    fn eps() -> R32 {
        R32(1e-3)
    }
    fn of_usize(n: usize) -> R32 {
        R32(n as f32)
    }
    fn neg(self) -> R32 {
        R32(-self.0)
    }
    fn add(self, other: R32) -> R32 {
        R32(self.0 + other.0)
    }
    fn sub(self, other: R32) -> R32 {
        R32(self.0 - other.0)
    }
    fn mul(self, other: R32) -> R32 {
        R32(self.0 * other.0)
    }
    fn div(self, other: R32) -> R32 {
        R32(self.0 / other.0)
    }
    fn abs(self) -> R32 {
        R32(self.0.abs())
    }
    fn sqrt(self) -> R32 {
        R32(self.0.sqrt())
    }
    fn sin(self) -> R32 {
        R32(self.0.sin())
    }
    fn cos(self) -> R32 {
        R32(self.0.cos())
    }
    fn atan(self) -> R32 {
        R32(self.0.atan())
    }
    fn atan2(self, other: R32) -> R32 {
        R32(self.0.atan2(other.0))
    }
    fn lt(self, other: R32) -> bool {
        self.0 < other.0
    }
    fn eq_zero(self) -> bool {
        self.0 == 0.0
    }
}

fn approx_equal(a: R32, b: f32) -> bool {
    (a.0 - b).abs() < EPS
}

fn bivec_approx_equal(a: Bivec4<R32>, b: Bivec4<R32>) -> bool {
    approx_equal(a.xy, b.xy.0)
        && approx_equal(a.xz, b.xz.0)
        && approx_equal(a.xw, b.xw.0)
        && approx_equal(a.yz, b.yz.0)
        && approx_equal(a.wy, b.wy.0)
        && approx_equal(a.zw, b.zw.0)
}

fn bivec(xy: f32, xz: f32, xw: f32, yz: f32, wy: f32, zw: f32) -> Bivec4<R32> {
    Bivec4 { xy: R32(xy), xz: R32(xz), xw: R32(xw), yz: R32(yz), wy: R32(wy), zw: R32(zw) }
}

#[test]
fn test_bivec_neg() {
    let input = bivec(1.0, 2.0, 3.0, 4.0, 5.0, 6.0);
    let expected = bivec(-1.0, -2.0, -3.0, -4.0, -5.0, -6.0);

    let got = input.neg();

    assert!(bivec_approx_equal(got, expected));
}

#[test]
fn test_bivec_add() {
    let input1 = bivec(1.0, 2.0, 3.0, 4.0, 5.0, 6.0);
    let input2 = bivec(10.0, 20.0, 30.0, 40.0, 50.0, 60.0);
    let expected = bivec(11.0, 22.0, 33.0, 44.0, 55.0, 66.0);

    let got = input1.add(input2);

    assert!(bivec_approx_equal(got, expected));
}

#[test]
fn test_bivec_sub() {
    let input1 = bivec(10.0, 20.0, 30.0, 40.0, 50.0, 60.0);
    let input2 = bivec(1.0, 2.0, 3.0, 4.0, 5.0, 6.0);
    let expected = bivec(9.0, 18.0, 27.0, 36.0, 45.0, 54.0);

    let got = input1.sub(input2);

    assert!(bivec_approx_equal(got, expected));
}

#[test]
fn test_bivec_scaled() {
    let input = bivec(1.0, 2.0, 3.0, 4.0, 5.0, 6.0);
    let expected = bivec(2.0, 4.0, 6.0, 8.0, 10.0, 12.0);

    let got = input.scaled(R32(2.0));

    assert!(bivec_approx_equal(got, expected));
}

#[test]
fn test_bivec_square() {
    let input = bivec(1.0, 2.0, 3.0, 4.0, 5.0, 6.0);
    // c: -(1 + 4 + 9 + 16 + 25 + 36) = -91
    // xyzw: 2 * (1 * 6 + 2 * 5 + 3 * 4) = 56
    let got = input.square();

    assert!(approx_equal(got.c, -91.0));
    assert!(approx_equal(got.xyzw, 56.0));
}

#[test]
fn test_scalar_plus_quadvec_mul_bivec() {
    let scalar_quadvec = ScalarPlusQuadvec4 { c: R32(1.0), xyzw: R32(2.0) };
    let input = bivec(1.0, 2.0, 3.0, 4.0, 5.0, 6.0);
    let expected = bivec(-11.0, -8.0, -5.0, -2.0, 1.0, 4.0);

    let result1 = scalar_quadvec.mul(input);
    let result2 = input.mul_scalar_quadvec(scalar_quadvec);

    assert!(bivec_approx_equal(result1, expected));
    assert!(bivec_approx_equal(result2, expected));
}

#[test]
fn test_simple_bivec_try_from_bivec() {
    let input = bivec(1.0, 0.0, 0.0, 0.0, 0.0, 0.0);

    let got = SimpleBivec4::try_from(input).unwrap();

    assert!(bivec_approx_equal(got.bivec(), input));
}

#[test]
fn test_simple_bivec_try_from_non_simple_bivec_returns_err() {
    let input = bivec(1.0, 0.0, 0.0, 0.0, 0.0, 1.0);

    let got = SimpleBivec4::try_from(input);

    assert!(matches!(got, Err(RotorError::NotSimple(_, _))));
}

#[test]
fn test_bivec_from_simple_bivec() {
    let input = bivec(0.0, 0.0, 0.0, 0.0, 0.0, 0.0);
    let simple = SimpleBivec4::try_from(input).unwrap();

    let got = simple.bivec();

    assert!(bivec_approx_equal(got, input));
}

#[test]
fn test_simple_bivec_add() {
    let input1 = SimpleBivec4::try_from(bivec(1.0, 0.0, 0.0, 0.0, 0.0, 0.0)).unwrap();
    let input2 = SimpleBivec4::try_from(bivec(0.0, 0.0, 0.0, 0.0, 0.0, 1.0)).unwrap();
    let expected = bivec(1.0, 0.0, 0.0, 0.0, 0.0, 1.0);

    let got = input1.add(input2);

    assert!(bivec_approx_equal(got, expected));
}

#[test]
fn test_simple_bivec_normalized() {
    let sqrt2 = std::f32::consts::SQRT_2;
    let input = SimpleBivec4::try_from(bivec(1.0, 1.0, 0.0, 0.0, 0.0, 0.0)).unwrap();
    let expected = bivec(sqrt2 / 2.0, sqrt2 / 2.0, 0.0, 0.0, 0.0, 0.0);

    let got = input.normalized();

    assert!(bivec_approx_equal(got.bivec(), expected));
}

#[test]
fn test_simple_bivec_normalized_zero() {
    let input = SimpleBivec4::try_from(bivec(0.0, 0.0, 0.0, 0.0, 0.0, 0.0)).unwrap();

    let got = input.normalized();

    assert!(bivec_approx_equal(got.bivec(), Bivec4::zero()));
}

#[test]
fn test_simple_bivec_scaled() {
    let input = SimpleBivec4::try_from(bivec(1.0, 0.0, 0.0, 0.0, 0.0, 0.0)).unwrap();
    let expected = bivec(2.0, 0.0, 0.0, 0.0, 0.0, 0.0);

    let got = input.scaled(R32(2.0));

    assert!(bivec_approx_equal(got.bivec(), expected));
}

#[test]
fn test_simple_bivec_square() {
    let input = SimpleBivec4::try_from(bivec(1.0, 2.0, 0.0, 3.0, 0.0, 0.0)).unwrap();

    let got = input.square();

    assert!(approx_equal(got, -14.0));
}

#[test]
fn test_simple_bivec_magnitude() {
    let input = SimpleBivec4::try_from(bivec(1.0, 2.0, 0.0, 3.0, 0.0, 0.0)).unwrap();

    let got = input.magnitude();

    assert!(approx_equal(got, (14.0f32).sqrt()));
}
