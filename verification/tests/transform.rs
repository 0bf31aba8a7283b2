//! The affine composite transform exercised over a caller-supplied f32
//! scalar, vector and matrix implementation.
#![allow(dead_code)]

use tessa4d::linear_algebra::scalar::Scalar;
use tessa4d::linear_algebra::traits::{
    Matrix4, Vector, Vector2, Vector2Lift, Vector3, Vector3Lift, Vector4,
};
use tessa4d::transform::rotate_scale_translate4::RotateScaleTranslate4;
use tessa4d::transform::rotor4::{Bivec4, Rotor4};
use tessa4d::transform::traits::{Compose, InterpolateWith, Transform};

/// The caller-supplied scalar representation: a machine float.
#[derive(Clone, Copy, Debug, PartialEq)]
pub struct R32(pub f32);

impl Scalar for R32 {
    fn spec_zero() -> R32 {
        R32(0.0)
    }
    fn spec_one() -> R32 {
        R32(1.0)
    }
    fn spec_two() -> R32 {
        R32(2.0)
    }
    fn spec_half() -> R32 {
        R32(0.5)
    }
    fn spec_pi() -> R32 {
        R32(std::f32::consts::PI)
    }
    fn spec_half_pi() -> R32 {
        R32(std::f32::consts::FRAC_PI_2)
    }
    fn spec_tau() -> R32 {
        R32(std::f32::consts::TAU)
    }
    fn spec_eps() -> R32 {
        R32(1e-3)
    }
    fn spec_of_usize(n: usize) -> R32 {
        R32(n as f32)
    }
    fn spec_neg(self) -> R32 {
        R32(-self.0)
    }
    fn spec_add(self, other: R32) -> R32 {
        R32(self.0 + other.0)
    }
    fn spec_sub(self, other: R32) -> R32 {
        R32(self.0 - other.0)
    }
    fn spec_mul(self, other: R32) -> R32 {
        R32(self.0 * other.0)
    }
    fn spec_div(self, other: R32) -> R32 {
        R32(self.0 / other.0)
    }
    fn spec_abs(self) -> R32 {
        R32(self.0.abs())
    }
    fn spec_sqrt(self) -> R32 {
        R32(self.0.sqrt())
    }
    fn spec_sin(self) -> R32 {
        R32(self.0.sin())
    }
    fn spec_cos(self) -> R32 {
        R32(self.0.cos())
    }
    fn spec_atan(self) -> R32 {
        R32(self.0.atan())
    }
    fn spec_atan2(self, other: R32) -> R32 {
        R32(self.0.atan2(other.0))
    }
    fn spec_lt(self, other: R32) -> bool {
        self.0 < other.0
    }
    fn zero() -> R32 {
        R32(0.0)
    }
    fn one() -> R32 {
        R32(1.0)
    }
    fn two() -> R32 {
        R32(2.0)
    }
    fn half() -> R32 {
        R32(0.5)
    }
    fn pi() -> R32 {
        R32(std::f32::consts::PI)
    }
    fn half_pi() -> R32 {
        R32(std::f32::consts::FRAC_PI_2)
    }
    fn tau() -> R32 {
        R32(std::f32::consts::TAU)
    }
    fn eps() -> R32 {
        R32(1e-3)
    }
    fn of_usize(n: usize) -> R32 {
        R32(n as f32)
    }
    fn neg(self) -> R32 {
        R32(-self.0)
    }
    fn add(self, other: R32) -> R32 {
        R32(self.0 + other.0)
    }
    fn sub(self, other: R32) -> R32 {
        R32(self.0 - other.0)
    }
    fn mul(self, other: R32) -> R32 {
        R32(self.0 * other.0)
    }
    fn div(self, other: R32) -> R32 {
        R32(self.0 / other.0)
    }
    fn abs(self) -> R32 {
        R32(self.0.abs())
    }
    fn sqrt(self) -> R32 {
        R32(self.0.sqrt())
    }
    fn sin(self) -> R32 {
        R32(self.0.sin())
    }
    fn cos(self) -> R32 {
        R32(self.0.cos())
    }
    fn atan(self) -> R32 {
        R32(self.0.atan())
    }
    fn atan2(self, other: R32) -> R32 {
        R32(self.0.atan2(other.0))
    }
    fn lt(self, other: R32) -> bool {
        self.0 < other.0
    }
    fn eq_zero(self) -> bool {
        self.0 == 0.0
    }
}

/// The caller-supplied 2-vector.
#[derive(Clone, Copy, Debug, PartialEq)]
pub struct Vec2f {
    pub x: f32,
    pub y: f32,
}

/// The caller-supplied 3-vector.
#[derive(Clone, Copy, Debug, PartialEq)]
pub struct Vec3f {
    pub x: f32,
    pub y: f32,
    pub z: f32,
}

/// The caller-supplied 4-vector.
#[derive(Clone, Copy, Debug, PartialEq)]
pub struct Vec4f {
    pub x: f32,
    pub y: f32,
    pub z: f32,
    pub w: f32,
}

/// The caller-supplied 4x4 matrix, stored as columns.
#[derive(Clone, Copy, Debug, PartialEq)]
pub struct Mat4f {
    pub cols: [[f32; 4]; 4],
}

pub fn vec2(x: f32, y: f32) -> Vec2f {
    Vec2f { x, y }
}

pub fn vec3(x: f32, y: f32, z: f32) -> Vec3f {
    Vec3f { x, y, z }
}

pub fn vec4(x: f32, y: f32, z: f32, w: f32) -> Vec4f {
    Vec4f { x, y, z, w }
}

impl Vector<R32> for Vec2f {
    fn spec_zero() -> Vec2f {
        vec2(0.0, 0.0)
    }
    fn spec_add(self, other: Vec2f) -> Vec2f {
        vec2(self.x + other.x, self.y + other.y)
    }
    fn spec_scale(self, scale: R32) -> Vec2f {
        vec2(self.x * scale.0, self.y * scale.0)
    }
    fn spec_dot(self, other: Vec2f) -> R32 {
        R32(self.x * other.x + self.y * other.y)
    }
    fn spec_normalized(self) -> Vec2f {
        let len = (self.x * self.x + self.y * self.y).sqrt();
        vec2(self.x / len, self.y / len)
    }
    fn zero() -> Vec2f {
        Self::spec_zero()
    }
    fn add(self, other: Vec2f) -> Vec2f {
        self.spec_add(other)
    }
    fn scale(self, scale: R32) -> Vec2f {
        self.spec_scale(scale)
    }
    fn dot(self, other: Vec2f) -> R32 {
        self.spec_dot(other)
    }
    fn normalized(self) -> Vec2f {
        self.spec_normalized()
    }
}

impl Vector2<R32> for Vec2f {
    fn spec_new(x: R32, y: R32) -> Vec2f {
        vec2(x.0, y.0)
    }
    fn spec_x(self) -> R32 {
        R32(self.x)
    }
    fn spec_y(self) -> R32 {
        R32(self.y)
    }
    fn new(x: R32, y: R32) -> Vec2f {
        vec2(x.0, y.0)
    }
    fn x(self) -> R32 {
        R32(self.x)
    }
    fn y(self) -> R32 {
        R32(self.y)
    }
}

impl Vector2Lift<R32> for Vec2f {
    type Vector3 = Vec3f;
}

impl Vector<R32> for Vec3f {
    fn spec_zero() -> Vec3f {
        vec3(0.0, 0.0, 0.0)
    }
    fn spec_add(self, other: Vec3f) -> Vec3f {
        vec3(self.x + other.x, self.y + other.y, self.z + other.z)
    }
    fn spec_scale(self, scale: R32) -> Vec3f {
        vec3(self.x * scale.0, self.y * scale.0, self.z * scale.0)
    }
    fn spec_dot(self, other: Vec3f) -> R32 {
        R32(self.x * other.x + self.y * other.y + self.z * other.z)
    }
    fn spec_normalized(self) -> Vec3f {
        let len = (self.x * self.x + self.y * self.y + self.z * self.z).sqrt();
        vec3(self.x / len, self.y / len, self.z / len)
    }
    fn zero() -> Vec3f {
        Self::spec_zero()
    }
    fn add(self, other: Vec3f) -> Vec3f {
        self.spec_add(other)
    }
    fn scale(self, scale: R32) -> Vec3f {
        self.spec_scale(scale)
    }
    fn dot(self, other: Vec3f) -> R32 {
        self.spec_dot(other)
    }
    fn normalized(self) -> Vec3f {
        self.spec_normalized()
    }
}

impl Vector3<R32> for Vec3f {
    type Vector2 = Vec2f;

    fn spec_new(x: R32, y: R32, z: R32) -> Vec3f {
        vec3(x.0, y.0, z.0)
    }
    fn spec_x(self) -> R32 {
        R32(self.x)
    }
    fn spec_y(self) -> R32 {
        R32(self.y)
    }
    fn spec_z(self) -> R32 {
        R32(self.z)
    }
    fn spec_cross(self, other: Vec3f) -> Vec3f {
        vec3(
            self.y * other.z - self.z * other.y,
            self.z * other.x - self.x * other.z,
            self.x * other.y - self.y * other.x,
        )
    }
    fn new(x: R32, y: R32, z: R32) -> Vec3f {
        vec3(x.0, y.0, z.0)
    }
    fn x(self) -> R32 {
        R32(self.x)
    }
    fn y(self) -> R32 {
        R32(self.y)
    }
    fn z(self) -> R32 {
        R32(self.z)
    }
    fn cross(self, other: Vec3f) -> Vec3f {
        self.spec_cross(other)
    }
}

impl Vector3Lift<R32> for Vec3f {
    type Vector4 = Vec4f;
}

impl Vector<R32> for Vec4f {
    fn spec_zero() -> Vec4f {
        vec4(0.0, 0.0, 0.0, 0.0)
    }
    fn spec_add(self, other: Vec4f) -> Vec4f {
        vec4(self.x + other.x, self.y + other.y, self.z + other.z, self.w + other.w)
    }
    fn spec_scale(self, scale: R32) -> Vec4f {
        vec4(self.x * scale.0, self.y * scale.0, self.z * scale.0, self.w * scale.0)
    }
    fn spec_dot(self, other: Vec4f) -> R32 {
        R32(self.x * other.x + self.y * other.y + self.z * other.z + self.w * other.w)
    }
    fn spec_normalized(self) -> Vec4f {
        let len = (self.x * self.x + self.y * self.y + self.z * self.z + self.w * self.w).sqrt();
        vec4(self.x / len, self.y / len, self.z / len, self.w / len)
    }
    fn zero() -> Vec4f {
        Self::spec_zero()
    }
    fn add(self, other: Vec4f) -> Vec4f {
        self.spec_add(other)
    }
    fn scale(self, scale: R32) -> Vec4f {
        self.spec_scale(scale)
    }
    fn dot(self, other: Vec4f) -> R32 {
        self.spec_dot(other)
    }
    fn normalized(self) -> Vec4f {
        self.spec_normalized()
    }
}

impl Vector4<R32> for Vec4f {
    type Matrix4 = Mat4f;
    type Vector3 = Vec3f;

    fn spec_new(x: R32, y: R32, z: R32, w: R32) -> Vec4f {
        vec4(x.0, y.0, z.0, w.0)
    }
    fn spec_x(self) -> R32 {
        R32(self.x)
    }
    fn spec_y(self) -> R32 {
        R32(self.y)
    }
    fn spec_z(self) -> R32 {
        R32(self.z)
    }
    fn spec_w(self) -> R32 {
        R32(self.w)
    }
    fn new(x: R32, y: R32, z: R32, w: R32) -> Vec4f {
        vec4(x.0, y.0, z.0, w.0)
    }
    fn x(self) -> R32 {
        R32(self.x)
    }
    fn y(self) -> R32 {
        R32(self.y)
    }
    fn z(self) -> R32 {
        R32(self.z)
    }
    fn w(self) -> R32 {
        R32(self.w)
    }
}

impl Matrix4<R32> for Mat4f {
    type Vector4 = Vec4f;

    fn spec_identity() -> Mat4f {
        Mat4f {
            cols: [
                [1.0, 0.0, 0.0, 0.0],
                [0.0, 1.0, 0.0, 0.0],
                [0.0, 0.0, 1.0, 0.0],
                [0.0, 0.0, 0.0, 1.0],
            ],
        }
    }
    fn spec_from_array(arr: [[R32; 4]; 4]) -> Mat4f {
        Mat4f { cols: arr.map(|col| col.map(|v| v.0)) }
    }
    fn spec_mul_vec(self, rhs: Vec4f) -> Vec4f {
        let c = self.cols;
        vec4(
            c[0][0] * rhs.x + c[1][0] * rhs.y + c[2][0] * rhs.z + c[3][0] * rhs.w,
            c[0][1] * rhs.x + c[1][1] * rhs.y + c[2][1] * rhs.z + c[3][1] * rhs.w,
            c[0][2] * rhs.x + c[1][2] * rhs.y + c[2][2] * rhs.z + c[3][2] * rhs.w,
            c[0][3] * rhs.x + c[1][3] * rhs.y + c[2][3] * rhs.z + c[3][3] * rhs.w,
        )
    }
    fn identity() -> Mat4f {
        Self::spec_identity()
    }
    fn from_array(arr: [[R32; 4]; 4]) -> Mat4f {
        Self::spec_from_array(arr)
    }
    fn mul_vec(self, rhs: Vec4f) -> Vec4f {
        self.spec_mul_vec(rhs)
    }
}

const EPS: f32 = 1e-3;

fn approx_equal(a: f32, b: f32) -> bool {
    (a - b).abs() < EPS
}

fn bivec(xy: f32, xz: f32, xw: f32, yz: f32, wy: f32, zw: f32) -> Bivec4<R32> {
    Bivec4 { xy: R32(xy), xz: R32(xz), xw: R32(xw), yz: R32(yz), wy: R32(wy), zw: R32(zw) }
}

fn bivec_approx_equal(a: Bivec4<R32>, b: Bivec4<R32>) -> bool {
    approx_equal(a.xy.0, b.xy.0)
        && approx_equal(a.xz.0, b.xz.0)
        && approx_equal(a.xw.0, b.xw.0)
        && approx_equal(a.yz.0, b.yz.0)
        && approx_equal(a.wy.0, b.wy.0)
        && approx_equal(a.zw.0, b.zw.0)
}

fn rotor_approx_equal(a: Rotor4<R32>, b: Rotor4<R32>) -> bool {
    approx_equal(a.c().0, b.c().0)
        && bivec_approx_equal(a.bivec(), b.bivec())
        && approx_equal(a.xyzw().0, b.xyzw().0)
}

fn vector_approx_equal(a: Vec4f, b: Vec4f) -> bool {
    approx_equal(a.x, b.x) && approx_equal(a.y, b.y) && approx_equal(a.z, b.z)
        && approx_equal(a.w, b.w)
}

fn mat_approx_equal(a: Mat4f, b: Mat4f) -> bool {
    for j in 0..4 {
        for i in 0..4 {
            if !approx_equal(a.cols[j][i], b.cols[j][i]) {
                return false;
            }
        }
    }
    true
}

fn xy_rotor(angle: f32) -> Rotor4<R32> {
    Rotor4::from_bivec_angles(bivec(angle, 0.0, 0.0, 0.0, 0.0, 0.0))
}

#[test]
fn rotate_scale_matrix_applies_correct_transform() {
    let pi = std::f32::consts::PI;
    let transform = RotateScaleTranslate4 {
        rotation: xy_rotor(pi / 2.0),
        scale: R32(2.0),
        translation: vec4(1.0, 2.0, 3.0, 4.0),
    };
    let vector = vec4(5.0, 6.0, 7.0, 8.0);
    let expected_vector = vec4(-12.0, 10.0, 14.0, 16.0);
    let expected_matrix = Mat4f {
        cols: [
            [0.0, 2.0, 0.0, 0.0],
            [-2.0, 0.0, 0.0, 0.0],
            [0.0, 0.0, 2.0, 0.0],
            [0.0, 0.0, 0.0, 2.0],
        ],
    };

    let got_matrix = transform.get_rotate_scale_matrix();
    let got_vector = got_matrix.mul_vec(vector);

    assert!(vector_approx_equal(got_vector, expected_vector));
    assert!(mat_approx_equal(got_matrix, expected_matrix));
}

#[test]
fn rotated_same_as_rotating_after() {
    let pi = std::f32::consts::PI;
    let transform = RotateScaleTranslate4 {
        rotation: Rotor4::identity(),
        scale: R32(2.0),
        translation: vec4(3.0, 4.0, 5.0, 6.0),
    };
    let rotor = xy_rotor(pi / 2.0);
    let vector = vec4(1.0, 2.0, 3.0, 4.0);
    let expected = vec4(-8.0, 5.0, 11.0, 14.0);

    let got_rotated_after = rotor.transform(transform.transform(vector));
    let got_rotated = transform.rotated(rotor).transform(vector);

    assert!(vector_approx_equal(got_rotated_after, expected));
    assert!(vector_approx_equal(got_rotated, expected));
}

#[test]
fn scaled_same_as_scaling_after() {
    let pi = std::f32::consts::PI;
    let transform = RotateScaleTranslate4 {
        rotation: xy_rotor(pi / 2.0),
        scale: R32(1.0),
        translation: vec4(3.0, 4.0, 5.0, 6.0),
    };
    let scale = 2.0;
    let vector = vec4(1.0, 2.0, 3.0, 4.0);
    let expected = vec4(2.0, 10.0, 16.0, 20.0);

    let got_scaled_after = transform.transform(vector).scale(R32(scale));
    let got_scaled = transform.scaled(R32(scale)).transform(vector);

    assert!(vector_approx_equal(got_scaled_after, expected));
    assert!(vector_approx_equal(got_scaled, expected));
}

#[test]
fn translated_same_as_translating_after() {
    let pi = std::f32::consts::PI;
    let transform = RotateScaleTranslate4 {
        rotation: xy_rotor(pi / 2.0),
        scale: R32(2.0),
        translation: Vec4f::zero(),
    };
    let translation = vec4(3.0, 4.0, 5.0, 6.0);
    let vector = vec4(1.0, 2.0, 3.0, 4.0);
    let expected = vec4(-1.0, 6.0, 11.0, 14.0);

    let got_translated_after = transform.transform(vector).add(translation);
    let got_translated = transform.translated(translation).transform(vector);

    assert!(vector_approx_equal(got_translated_after, expected));
    assert!(vector_approx_equal(got_translated, expected));
}

#[test]
fn composed_composes() {
    let pi = std::f32::consts::PI;
    let transform1 = RotateScaleTranslate4 {
        rotation: xy_rotor(pi / 2.0),
        scale: R32(2.0),
        translation: vec4(1.0, 2.0, 3.0, 4.0),
    };
    let transform2 = RotateScaleTranslate4 {
        rotation: Rotor4::from_bivec_angles(bivec(0.0, 0.0, 0.0, 0.0, 0.0, pi / 2.0)),
        scale: R32(3.0),
        translation: vec4(4.0, 3.0, 2.0, 1.0),
    };
    let expected_rotor = Rotor4::from_bivec_angles(bivec(pi / 2.0, 0.0, 0.0, 0.0, 0.0, pi / 2.0));
    let expected_scale = 6.0;
    let expected_translate = vec4(7.0, 9.0, -10.0, 10.0);

    let got = transform1.compose(transform2);

    assert!(rotor_approx_equal(got.rotation, expected_rotor));
    assert!(approx_equal(got.scale.0, expected_scale));
    assert!(vector_approx_equal(got.translation, expected_translate));
}

#[test]
fn interpolate_with_interpolates() {
    let pi = std::f32::consts::PI;
    let transform1 = RotateScaleTranslate4 {
        rotation: xy_rotor(pi / 2.0),
        scale: R32(2.0),
        translation: vec4(1.0, 2.0, 3.0, 4.0),
    };
    let transform2 = RotateScaleTranslate4 {
        rotation: Rotor4::from_bivec_angles(bivec(0.0, 0.0, 0.0, 0.0, 0.0, pi / 2.0)),
        scale: R32(3.0),
        translation: vec4(4.0, 3.0, 2.0, 1.0),
    };
    let expected = RotateScaleTranslate4 {
        rotation: Rotor4::from_bivec_angles(bivec(pi / 4.0, 0.0, 0.0, 0.0, 0.0, pi / 4.0)),
        scale: R32(2.5),
        translation: vec4(2.5, 2.5, 2.5, 2.5),
    };

    let got = transform1.interpolate_with(transform2, R32(0.5));

    assert!(rotor_approx_equal(got.rotation, expected.rotation));
    assert!(approx_equal(got.scale.0, expected.scale.0));
    assert!(vector_approx_equal(got.translation, expected.translation));
}

#[test]
fn identity_transform_leaves_points_unchanged() {
    let transform = RotateScaleTranslate4::<R32, Vec4f>::identity();
    let vector = vec4(1.0, -2.0, 3.5, 4.0);

    let got = transform.transform(vector);

    assert!(vector_approx_equal(got, vector));
}
