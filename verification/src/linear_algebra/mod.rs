//! Interfaces that let a caller swap in its own linear-algebra
//! implementation, for example the vectors and matrices provided by a
//! specific game engine.

pub mod scalar;
pub mod traits;

pub use scalar::Scalar;
pub use traits::{Matrix4, Vector, Vector2, Vector2Lift, Vector3, Vector3Lift, Vector4};
