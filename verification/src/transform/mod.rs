//! Four-dimensional transforms: rotors, the affine composite transform, and
//! the interfaces they are used through.

pub mod rotate_scale_translate4;
pub mod rotor4;
pub mod traits;
