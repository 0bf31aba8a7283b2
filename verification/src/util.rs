use vstd::prelude::*;

use crate::linear_algebra::scalar::Scalar;
use crate::linear_algebra::traits::Vector;

verus! {

/// Linear interpolation from `a` to `b`: `a * (1 - t) + b * t`, evaluating
/// to `a` at `t` zero and `b` at `t` one, with a straight line in between.
pub open spec fn spec_lerp<S: Scalar, V: Vector<S>>(a: V, b: V, t: S) -> V {
    a.spec_scale(S::spec_one().spec_sub(t)).spec_add(b.spec_scale(t))
}

/// Linear interpolation of vectors from `a` to `b` at fraction `t`.
pub fn lerp<S: Scalar, V: Vector<S>>(a: V, b: V, t: S) -> (r: V)
    ensures
        r == spec_lerp(a, b, t),
{
    a.scale(S::one().sub(t)).add(b.scale(t))
}

/// Linear interpolation of scalars: `a * (1 - t) + b * t`.
pub open spec fn spec_lerp_scalar<S: Scalar>(a: S, b: S, t: S) -> S {
    a.spec_mul(S::spec_one().spec_sub(t)).spec_add(b.spec_mul(t))
}

/// Linear interpolation of scalars from `a` to `b` at fraction `t`.
pub fn lerp_scalar<S: Scalar>(a: S, b: S, t: S) -> (r: S)
    ensures
        r == spec_lerp_scalar(a, b, t),
{
    a.mul(S::one().sub(t)).add(b.mul(t))
}

} // verus!
