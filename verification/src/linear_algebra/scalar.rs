use vstd::prelude::*;

verus! {

/// The numeric representation that the whole engine is generic over.
///
/// A caller supplies an implementation for its chosen scalar type (for a game
/// engine this is typically a machine float). Each executable operation is
/// pinned to an uninterpreted spec counterpart, so every contract in the
/// engine is exact relative to the caller's arithmetic: the engine promises
/// precisely which expression over the caller's operations it computes.
pub trait Scalar: Copy + Sized {
    /// The additive identity.
    spec fn spec_zero() -> Self;

    /// The multiplicative identity.
    spec fn spec_one() -> Self;

    spec fn spec_two() -> Self;

    /// One half.
    spec fn spec_half() -> Self;

    /// Half a turn of angle.
    spec fn spec_pi() -> Self;

    /// A quarter turn of angle.
    spec fn spec_half_pi() -> Self;

    /// A full turn of angle.
    spec fn spec_tau() -> Self;

    /// The tolerance used by the engine's approximate comparisons.
    spec fn spec_eps() -> Self;

    spec fn spec_of_usize(n: usize) -> Self;

    spec fn spec_neg(self) -> Self;

    spec fn spec_add(self, other: Self) -> Self;

    spec fn spec_sub(self, other: Self) -> Self;

    spec fn spec_mul(self, other: Self) -> Self;

    spec fn spec_div(self, other: Self) -> Self;

    spec fn spec_abs(self) -> Self;

    spec fn spec_sqrt(self) -> Self;

    spec fn spec_sin(self) -> Self;

    spec fn spec_cos(self) -> Self;

    spec fn spec_atan(self) -> Self;

    spec fn spec_atan2(self, other: Self) -> Self;

    spec fn spec_lt(self, other: Self) -> bool;

    fn zero() -> (r: Self)
        ensures
            r == Self::spec_zero(),
    ;

    fn one() -> (r: Self)
        ensures
            r == Self::spec_one(),
    ;

    fn two() -> (r: Self)
        ensures
            r == Self::spec_two(),
    ;

    fn half() -> (r: Self)
        ensures
            r == Self::spec_half(),
    ;

    fn pi() -> (r: Self)
        ensures
            r == Self::spec_pi(),
    ;

    fn half_pi() -> (r: Self)
        ensures
            r == Self::spec_half_pi(),
    ;

    fn tau() -> (r: Self)
        ensures
            r == Self::spec_tau(),
    ;

    fn eps() -> (r: Self)
        ensures
            r == Self::spec_eps(),
    ;

    fn of_usize(n: usize) -> (r: Self)
        ensures
            r == Self::spec_of_usize(n),
    ;

    fn neg(self) -> (r: Self)
        ensures
            r == self.spec_neg(),
    ;

    fn add(self, other: Self) -> (r: Self)
        ensures
            r == self.spec_add(other),
    ;

    fn sub(self, other: Self) -> (r: Self)
        ensures
            r == self.spec_sub(other),
    ;

    fn mul(self, other: Self) -> (r: Self)
        ensures
            r == self.spec_mul(other),
    ;

    fn div(self, other: Self) -> (r: Self)
        ensures
            r == self.spec_div(other),
    ;

    fn abs(self) -> (r: Self)
        ensures
            r == self.spec_abs(),
    ;

    fn sqrt(self) -> (r: Self)
        ensures
            r == self.spec_sqrt(),
    ;

    fn sin(self) -> (r: Self)
        ensures
            r == self.spec_sin(),
    ;

    fn cos(self) -> (r: Self)
        ensures
            r == self.spec_cos(),
    ;

    fn atan(self) -> (r: Self)
        ensures
            r == self.spec_atan(),
    ;

    fn atan2(self, other: Self) -> (r: Self)
        ensures
            r == self.spec_atan2(other),
    ;

    fn lt(self, other: Self) -> (r: bool)
        ensures
            r == self.spec_lt(other),
    ;

    fn eq_zero(self) -> (r: bool)
        ensures
            r == (self == Self::spec_zero()),
    ;
}

/// Whether `a` and `b` are within `eps` of each other, as the engine's
/// approximate comparison computes it: `|a - b| < eps`.
pub open spec fn spec_approx_equal<S: Scalar>(a: S, b: S, eps: S) -> bool {
    a.spec_sub(b).spec_abs().spec_lt(eps)
}

/// Approximate equality: `|a - b| < eps`.
pub fn approx_equal<S: Scalar>(a: S, b: S, eps: S) -> (r: bool)
    ensures
        r == spec_approx_equal(a, b, eps),
{
    a.sub(b).abs().lt(eps)
}

} // verus!
