use vstd::prelude::*;

use crate::linear_algebra::scalar::Scalar;
use crate::transform::rotor4::Bivec4;

verus! {

/// Common interface for all vector types, used by implementations that are
/// generic across the dimension of a vector. A caller implements it for its
/// own vector types; the spec counterparts name the caller's operations, so
/// the engine's contracts are exact relative to them.
pub trait Vector<S: Scalar>: Copy + Sized {
    /// The vector with every component zero.
    spec fn spec_zero() -> Self;

    spec fn spec_add(self, other: Self) -> Self;

    /// The vector scaled componentwise by `scale`.
    spec fn spec_scale(self, scale: S) -> Self;

    spec fn spec_dot(self, other: Self) -> S;

    /// The vector scaled to unit length.
    spec fn spec_normalized(self) -> Self;

    fn zero() -> (r: Self)
        ensures
            r == Self::spec_zero(),
    ;

    fn add(self, other: Self) -> (r: Self)
        ensures
            r == self.spec_add(other),
    ;

    fn scale(self, scale: S) -> (r: Self)
        ensures
            r == self.spec_scale(scale),
    ;

    fn dot(self, other: Self) -> (r: S)
        ensures
            r == self.spec_dot(other),
    ;

    fn normalized(self) -> (r: Self)
        ensures
            r == self.spec_normalized(),
    ;
}

/// A vector of four components.
pub trait Vector4<S: Scalar>: Vector<S> {
    type Matrix4: Matrix4<S, Vector4 = Self>;

    type Vector3: Vector3<S>;

    spec fn spec_new(x: S, y: S, z: S, w: S) -> Self;

    spec fn spec_x(self) -> S;

    spec fn spec_y(self) -> S;

    spec fn spec_z(self) -> S;

    spec fn spec_w(self) -> S;

    fn new(x: S, y: S, z: S, w: S) -> (r: Self)
        ensures
            r == Self::spec_new(x, y, z, w),
    ;

    fn x(self) -> (r: S)
        ensures
            r == self.spec_x(),
    ;

    fn y(self) -> (r: S)
        ensures
            r == self.spec_y(),
    ;

    fn z(self) -> (r: S)
        ensures
            r == self.spec_z(),
    ;

    fn w(self) -> (r: S)
        ensures
            r == self.spec_w(),
    ;
}

/// The bivector spanned by two 4-vectors: componentwise, each plane
/// coefficient is the corresponding two-by-two determinant.
pub open spec fn spec_wedge<S: Scalar, V: Vector4<S>>(a: V, b: V) -> Bivec4<S> {
    Bivec4 {
        xy: a.spec_x().spec_mul(b.spec_y()).spec_sub(a.spec_y().spec_mul(b.spec_x())),
        xz: a.spec_x().spec_mul(b.spec_z()).spec_sub(a.spec_z().spec_mul(b.spec_x())),
        xw: a.spec_x().spec_mul(b.spec_w()).spec_sub(a.spec_w().spec_mul(b.spec_x())),
        yz: a.spec_y().spec_mul(b.spec_z()).spec_sub(a.spec_z().spec_mul(b.spec_y())),
        wy: a.spec_w().spec_mul(b.spec_y()).spec_sub(a.spec_y().spec_mul(b.spec_w())),
        zw: a.spec_z().spec_mul(b.spec_w()).spec_sub(a.spec_w().spec_mul(b.spec_z())),
    }
}

/// The wedge product of two 4-vectors, an oriented plane with magnitude.
pub fn wedge<S: Scalar, V: Vector4<S>>(a: V, b: V) -> (r: Bivec4<S>)
    ensures
        r == spec_wedge(a, b),
{
    Bivec4 {
        xy: a.x().mul(b.y()).sub(a.y().mul(b.x())),
        xz: a.x().mul(b.z()).sub(a.z().mul(b.x())),
        xw: a.x().mul(b.w()).sub(a.w().mul(b.x())),
        yz: a.y().mul(b.z()).sub(a.z().mul(b.y())),
        wy: a.w().mul(b.y()).sub(a.y().mul(b.w())),
        zw: a.z().mul(b.w()).sub(a.w().mul(b.z())),
    }
}

/// A four-by-four matrix. The associated vector type is left unconstrained
/// here to avoid a cycle with [`Vector4`], which ties the two together.
pub trait Matrix4<S: Scalar>: Sized {
    type Vector4;

    /// The identity matrix: ones along the diagonal and zeros elsewhere.
    spec fn spec_identity() -> Self;

    /// The matrix built from an array given in column-major order.
    spec fn spec_from_array(arr: [[S; 4]; 4]) -> Self;

    /// The matrix-vector product.
    spec fn spec_mul_vec(self, rhs: Self::Vector4) -> Self::Vector4;

    fn identity() -> (r: Self)
        ensures
            r == Self::spec_identity(),
    ;

    fn from_array(arr: [[S; 4]; 4]) -> (r: Self)
        ensures
            r == Self::spec_from_array(arr),
    ;

    fn mul_vec(self, rhs: Self::Vector4) -> (r: Self::Vector4)
        ensures
            r == self.spec_mul_vec(rhs),
    ;
}

/// A vector of three components.
pub trait Vector3<S: Scalar>: Vector<S> {
    type Vector2: Vector2<S>;

    spec fn spec_new(x: S, y: S, z: S) -> Self;

    spec fn spec_x(self) -> S;

    spec fn spec_y(self) -> S;

    spec fn spec_z(self) -> S;

    /// The cross product.
    spec fn spec_cross(self, other: Self) -> Self;

    fn new(x: S, y: S, z: S) -> (r: Self)
        ensures
            r == Self::spec_new(x, y, z),
    ;

    fn x(self) -> (r: S)
        ensures
            r == self.spec_x(),
    ;

    fn y(self) -> (r: S)
        ensures
            r == self.spec_y(),
    ;

    fn z(self) -> (r: S)
        ensures
            r == self.spec_z(),
    ;

    fn cross(self, other: Self) -> (r: Self)
        ensures
            r == self.spec_cross(other),
    ;
}

/// The step up the dimension ladder from a 2-vector: names the 3-vector
/// type that an orthographic lift produces. This is split from [`Vector2`]
/// so that the trait declarations stay acyclic, which the verifier requires.
pub trait Vector2Lift<S: Scalar>: Vector2<S> {
    type Vector3: Vector3<S>;
}

/// The step up the dimension ladder from a 3-vector: names the 4-vector
/// type that an orthographic lift produces.
pub trait Vector3Lift<S: Scalar>: Vector3<S> {
    type Vector4: Vector4<S>;
}

/// A vector of two components.
pub trait Vector2<S: Scalar>: Vector<S> {
    spec fn spec_new(x: S, y: S) -> Self;

    spec fn spec_x(self) -> S;

    spec fn spec_y(self) -> S;

    fn new(x: S, y: S) -> (r: Self)
        ensures
            r == Self::spec_new(x, y),
    ;

    fn x(self) -> (r: S)
        ensures
            r == self.spec_x(),
    ;

    fn y(self) -> (r: S)
        ensures
            r == self.spec_y(),
    ;
}

} // verus!
