use vstd::prelude::*;

use crate::linear_algebra::scalar::Scalar;
use crate::linear_algebra::traits::{Matrix4, Vector, Vector4};
use crate::transform::rotor4::Rotor4;
use crate::transform::traits::{Compose, InterpolateWith, Transform};
use crate::util::{lerp, lerp_scalar, spec_lerp, spec_lerp_scalar};

verus! {

/// A transform with rotation, uniform scale, and translation, representing
/// the map that applies the rotation, then the scale, then the translation.
#[derive(Copy, Clone, Debug)]
pub struct RotateScaleTranslate4<S, V> {
    pub rotation: Rotor4<S>,
    pub scale: S,
    pub translation: V,
}

impl<S: Scalar, V: Vector4<S>> RotateScaleTranslate4<S, V> {
    /// The transform that does nothing: identity rotation, unit scale, zero
    /// translation.
    pub open spec fn spec_identity() -> RotateScaleTranslate4<S, V> {
        RotateScaleTranslate4 {
            rotation: Rotor4::spec_identity(),
            scale: S::spec_one(),
            translation: V::spec_zero(),
        }
    }

    /// The identity transform.
    pub fn identity() -> (r: RotateScaleTranslate4<S, V>)
        ensures
            r == Self::spec_identity(),
    {
        RotateScaleTranslate4 {
            rotation: Rotor4::identity(),
            scale: S::one(),
            translation: V::zero(),
        }
    }

    /// The matrix of the combined rotation and scale: the rotor's rotation
    /// matrix with every entry multiplied by the scale.
    pub open spec fn spec_rotate_scale_array(self) -> [[S; 4]; 4] {
        let m = self.rotation.spec_into_mat4_array();
        let s = self.scale;
        [
            [
                m[0][0].spec_mul(s),
                m[0][1].spec_mul(s),
                m[0][2].spec_mul(s),
                m[0][3].spec_mul(s),
            ],
            [
                m[1][0].spec_mul(s),
                m[1][1].spec_mul(s),
                m[1][2].spec_mul(s),
                m[1][3].spec_mul(s),
            ],
            [
                m[2][0].spec_mul(s),
                m[2][1].spec_mul(s),
                m[2][2].spec_mul(s),
                m[2][3].spec_mul(s),
            ],
            [
                m[3][0].spec_mul(s),
                m[3][1].spec_mul(s),
                m[3][2].spec_mul(s),
                m[3][3].spec_mul(s),
            ],
        ]
    }

    /// Returns a matrix that represents the combined rotation and scale from
    /// this transform.
    pub fn get_rotate_scale_matrix(&self) -> (r: V::Matrix4)
        ensures
            r == <V::Matrix4 as Matrix4<S>>::spec_from_array(self.spec_rotate_scale_array()),
    {
        let m = self.rotation.into_mat4_array();
        let s = self.scale;
        let scaled = [
            [m[0][0].mul(s), m[0][1].mul(s), m[0][2].mul(s), m[0][3].mul(s)],
            [m[1][0].mul(s), m[1][1].mul(s), m[1][2].mul(s), m[1][3].mul(s)],
            [m[2][0].mul(s), m[2][1].mul(s), m[2][2].mul(s), m[2][3].mul(s)],
            [m[3][0].mul(s), m[3][1].mul(s), m[3][2].mul(s), m[3][3].mul(s)],
        ];
        V::Matrix4::from_array(scaled)
    }

    /// This transform followed by the given rotation: the rotations compose,
    /// and the existing translation is itself rotated, since the new
    /// rotation applies globally after this transform's effect.
    pub open spec fn spec_rotated(self, rotation: Rotor4<S>) -> RotateScaleTranslate4<S, V> {
        RotateScaleTranslate4 {
            rotation: self.rotation.spec_compose(rotation),
            scale: self.scale,
            translation: rotation.spec_transform(self.translation),
        }
    }

    /// Returns a transform that applies this transform, and then the given
    /// rotation.
    pub fn rotated(&self, rotation: Rotor4<S>) -> (r: RotateScaleTranslate4<S, V>)
        ensures
            r == self.spec_rotated(rotation),
    {
        RotateScaleTranslate4 {
            rotation: self.rotation.compose(rotation),
            scale: self.scale,
            translation: rotation.transform(self.translation),
        }
    }

    /// This transform followed by the given scale: the scales multiply, and
    /// the existing translation is scaled too.
    pub open spec fn spec_scaled(self, scale: S) -> RotateScaleTranslate4<S, V> {
        RotateScaleTranslate4 {
            rotation: self.rotation,
            scale: self.scale.spec_mul(scale),
            translation: self.translation.spec_scale(scale),
        }
    }

    /// Returns a transform that applies this transform, and then the given
    /// scale.
    pub fn scaled(&self, scale: S) -> (r: RotateScaleTranslate4<S, V>)
        ensures
            r == self.spec_scaled(scale),
    {
        RotateScaleTranslate4 {
            rotation: self.rotation,
            scale: self.scale.mul(scale),
            translation: self.translation.scale(scale),
        }
    }

    /// This transform followed by the given translation: only the
    /// translation component moves.
    pub open spec fn spec_translated(self, offset: V) -> RotateScaleTranslate4<S, V> {
        RotateScaleTranslate4 {
            rotation: self.rotation,
            scale: self.scale,
            translation: self.translation.spec_add(offset),
        }
    }

    /// Returns a transform that applies this transform, and then the given
    /// translation.
    pub fn translated(&self, offset: V) -> (r: RotateScaleTranslate4<S, V>)
        ensures
            r == self.spec_translated(offset),
    {
        RotateScaleTranslate4 {
            rotation: self.rotation,
            scale: self.scale,
            translation: self.translation.add(offset),
        }
    }
}

impl<S: Scalar, V: Vector4<S>> Compose<RotateScaleTranslate4<S, V>> for RotateScaleTranslate4<
    S,
    V,
> {
    type Composed = RotateScaleTranslate4<S, V>;

    /// Composition applies `self`, then `other`: rotate by the other's
    /// rotation, scale by its scale, translate by its translation.
    open spec fn spec_compose(&self, other: RotateScaleTranslate4<S, V>) -> RotateScaleTranslate4<
        S,
        V,
    > {
        self.spec_rotated(other.rotation).spec_scaled(other.scale).spec_translated(
            other.translation,
        )
    }

    fn compose(&self, other: RotateScaleTranslate4<S, V>) -> (r: RotateScaleTranslate4<S, V>) {
        self.rotated(other.rotation).scaled(other.scale).translated(other.translation)
    }
}

impl<S: Scalar, V: Vector4<S>> Transform<V> for RotateScaleTranslate4<S, V> {
    /// The composite map: rotate the point, scale it, then translate it.
    open spec fn spec_transform(&self, operand: V) -> V {
        self.rotation.spec_transform(operand).spec_scale(self.scale).spec_add(self.translation)
    }

    fn transform(&self, operand: V) -> (r: V) {
        self.rotation.transform(operand).scale(self.scale).add(self.translation)
    }
}

impl<S: Scalar, V: Vector4<S>> InterpolateWith<S> for RotateScaleTranslate4<S, V> {
    /// Interpolation slerps the rotation through the rotor and lerps the
    /// scale and translation linearly.
    open spec fn spec_interpolate_with(&self, other: RotateScaleTranslate4<S, V>, fraction: S) -> RotateScaleTranslate4<
        S,
        V,
    > {
        RotateScaleTranslate4 {
            rotation: self.rotation.spec_interpolate_with(other.rotation, fraction),
            scale: spec_lerp_scalar(self.scale, other.scale, fraction),
            translation: spec_lerp(self.translation, other.translation, fraction),
        }
    }

    fn interpolate_with(&self, other: RotateScaleTranslate4<S, V>, fraction: S) -> (r: RotateScaleTranslate4<
        S,
        V,
    >) {
        RotateScaleTranslate4 {
            rotation: self.rotation.interpolate_with(other.rotation, fraction),
            scale: lerp_scalar(self.scale, other.scale, fraction),
            translation: lerp(self.translation, other.translation, fraction),
        }
    }
}

} // verus!
