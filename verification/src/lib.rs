//! A dimension-generic geometric-algebra engine: four-dimensional rotations
//! represented as bivectors and rotors, an affine composite transform, and a
//! simplicial-mesh model with extrusion, orthographic lift/projection and
//! hyperplane cross-section.
//!
//! Every component is generic over the numeric representation a caller
//! supplies: the [`linear_algebra`] module declares the scalar, vector and
//! matrix interfaces, and each contract in the engine is stated over their
//! spec-level counterparts.

pub mod linear_algebra;
pub mod mesh;
pub mod transform;
pub mod util;
