//! Interfaces for 4D transforms.

use vstd::prelude::*;

use crate::linear_algebra::scalar::Scalar;

verus! {

/// A transformation of values of type `T`. Each implementation pins its
/// executable `transform` to a spec counterpart, so operations built on top
/// of a transform can state exactly which map they apply.
pub trait Transform<T> {
    /// The value this transformation maps `operand` to.
    spec fn spec_transform(&self, operand: T) -> T;

    /// Applies this transformation to a vector representing a point.
    fn transform(&self, operand: T) -> (r: T)
        ensures
            r == self.spec_transform(operand),
    ;
}

/// Composition of transformations: the result performs both operations in
/// sequence, `self` and then `other`.
pub trait Compose<Other> {
    type Composed;

    /// The composite of `self` followed by `other`.
    spec fn spec_compose(&self, other: Other) -> Self::Composed;

    /// Composes two transformations into one that performs both operations
    /// in sequence, `self` and then `other`.
    fn compose(&self, other: Other) -> (r: Self::Composed)
        ensures
            r == self.spec_compose(other),
    ;
}

/// For transforms that are always invertible.
pub trait Inverse {
    type Inverted;

    /// The transform that undoes this transform.
    spec fn spec_inverse(&self) -> Self::Inverted;

    /// Returns another transform that "undoes" this transform: applying this
    /// transform and then the inverse gives the original value.
    fn inverse(&self) -> (r: Self::Inverted)
        ensures
            r == self.spec_inverse(),
    ;
}

/// For transforms that are sometimes invertible.
pub trait TryInverse {
    type Inverted;

    /// The inverse transform, or `None` where the transform is not
    /// invertible.
    spec fn spec_try_inverse(&self) -> Option<Self::Inverted>;

    /// Attempts to invert a transform; returns `None` if the transform is
    /// not invertible.
    fn try_inverse(&self) -> (r: Option<Self::Inverted>)
        ensures
            r == self.spec_try_inverse(),
    ;
}

impl<T: Inverse> TryInverse for T {
    type Inverted = T::Inverted;

    open spec fn spec_try_inverse(&self) -> Option<Self::Inverted> {
        Some(self.spec_inverse())
    }

    fn try_inverse(&self) -> (r: Option<Self::Inverted>) {
        Some(self.inverse())
    }
}

/// For transforms (and vertices) that can be interpolated.
pub trait InterpolateWith<S: Scalar>: Sized {
    /// The interpolation of `self` towards `other` at `fraction`.
    spec fn spec_interpolate_with(&self, other: Self, fraction: S) -> Self;

    /// Interpolates between two values. Implementations must support a
    /// fraction between zero and one inclusive.
    fn interpolate_with(&self, other: Self, fraction: S) -> (r: Self)
        ensures
            r == self.spec_interpolate_with(other, fraction),
    ;
}

} // verus!
