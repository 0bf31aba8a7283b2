//! Rotations in four dimensions: bivectors, rotors, and their algebra.
//!
//! Everything here is generic over the caller's scalar representation; each
//! executable operation's contract states, componentwise, exactly which
//! expression over the caller's arithmetic it computes. The closed-form
//! formulas are the ones the operations are specified by: the square of a
//! bivector, the geometric product of two rotors truncated to grades zero,
//! two and four, the bivector exponential, and so on.

use vstd::prelude::*;

use crate::linear_algebra::scalar::{approx_equal, spec_approx_equal, Scalar};
use crate::linear_algebra::traits::{spec_wedge, wedge, Matrix4, Vector, Vector4};
use crate::transform::traits::{Compose, InterpolateWith, Inverse, Transform};

verus! {

/// A 4D bivector, with one component for each of the six basis planes.
///
/// Note `wy` is flipped from what you might expect; this makes the
/// multiplication tables for rotors nicer.
#[derive(Clone, Copy, Debug)]
pub struct Bivec4<S> {
    pub xy: S,
    pub xz: S,
    pub xw: S,
    pub yz: S,
    pub wy: S,
    pub zw: S,
}

/// A scalar added to a 4D quadvector (pseudoscalar). This pair forms a
/// sub-algebra closed under multiplication, used to act on bivectors during
/// rotor normalization and bivector factorization.
#[derive(Clone, Copy, Debug)]
pub struct ScalarPlusQuadvec4<S> {
    pub c: S,
    pub xyzw: S,
}

impl<S: Scalar> Bivec4<S> {
    /// The zero bivector.
    pub open spec fn spec_zero() -> Bivec4<S> {
        Bivec4 {
            xy: S::spec_zero(),
            xz: S::spec_zero(),
            xw: S::spec_zero(),
            yz: S::spec_zero(),
            wy: S::spec_zero(),
            zw: S::spec_zero(),
        }
    }

    /// The zero bivector.
    pub fn zero() -> (r: Bivec4<S>)
        ensures
            r == Self::spec_zero(),
    {
        Bivec4 {
            xy: S::zero(),
            xz: S::zero(),
            xw: S::zero(),
            yz: S::zero(),
            wy: S::zero(),
            zw: S::zero(),
        }
    }

    /// The bivector with every component one.
    pub open spec fn spec_one() -> Bivec4<S> {
        Bivec4 {
            xy: S::spec_one(),
            xz: S::spec_one(),
            xw: S::spec_one(),
            yz: S::spec_one(),
            wy: S::spec_one(),
            zw: S::spec_one(),
        }
    }

    /// The bivector with every component one.
    pub fn one() -> (r: Bivec4<S>)
        ensures
            r == Self::spec_one(),
    {
        Bivec4 {
            xy: S::one(),
            xz: S::one(),
            xw: S::one(),
            yz: S::one(),
            wy: S::one(),
            zw: S::one(),
        }
    }

    /// The bivector scaled componentwise.
    pub open spec fn spec_scaled(self, scale: S) -> Bivec4<S> {
        Bivec4 {
            xy: self.xy.spec_mul(scale),
            xz: self.xz.spec_mul(scale),
            xw: self.xw.spec_mul(scale),
            yz: self.yz.spec_mul(scale),
            wy: self.wy.spec_mul(scale),
            zw: self.zw.spec_mul(scale),
        }
    }

    /// Scales the bivector by a scalar.
    pub fn scaled(&self, scale: S) -> (r: Bivec4<S>)
        ensures
            r == self.spec_scaled(scale),
    {
        Bivec4 {
            xy: self.xy.mul(scale),
            xz: self.xz.mul(scale),
            xw: self.xw.mul(scale),
            yz: self.yz.mul(scale),
            wy: self.wy.mul(scale),
            zw: self.zw.mul(scale),
        }
    }

    /// The componentwise negation.
    pub open spec fn spec_neg(self) -> Bivec4<S> {
        Bivec4 {
            xy: self.xy.spec_neg(),
            xz: self.xz.spec_neg(),
            xw: self.xw.spec_neg(),
            yz: self.yz.spec_neg(),
            wy: self.wy.spec_neg(),
            zw: self.zw.spec_neg(),
        }
    }

    /// Negates every component.
    pub fn neg(&self) -> (r: Bivec4<S>)
        ensures
            r == self.spec_neg(),
    {
        Bivec4 {
            xy: self.xy.neg(),
            xz: self.xz.neg(),
            xw: self.xw.neg(),
            yz: self.yz.neg(),
            wy: self.wy.neg(),
            zw: self.zw.neg(),
        }
    }

    /// The componentwise sum.
    pub open spec fn spec_add(self, rhs: Bivec4<S>) -> Bivec4<S> {
        Bivec4 {
            xy: self.xy.spec_add(rhs.xy),
            xz: self.xz.spec_add(rhs.xz),
            xw: self.xw.spec_add(rhs.xw),
            yz: self.yz.spec_add(rhs.yz),
            wy: self.wy.spec_add(rhs.wy),
            zw: self.zw.spec_add(rhs.zw),
        }
    }

    /// Adds two bivectors componentwise.
    pub fn add(&self, rhs: Bivec4<S>) -> (r: Bivec4<S>)
        ensures
            r == self.spec_add(rhs),
    {
        Bivec4 {
            xy: self.xy.add(rhs.xy),
            xz: self.xz.add(rhs.xz),
            xw: self.xw.add(rhs.xw),
            yz: self.yz.add(rhs.yz),
            wy: self.wy.add(rhs.wy),
            zw: self.zw.add(rhs.zw),
        }
    }

    /// The componentwise difference.
    pub open spec fn spec_sub(self, rhs: Bivec4<S>) -> Bivec4<S> {
        Bivec4 {
            xy: self.xy.spec_sub(rhs.xy),
            xz: self.xz.spec_sub(rhs.xz),
            xw: self.xw.spec_sub(rhs.xw),
            yz: self.yz.spec_sub(rhs.yz),
            wy: self.wy.spec_sub(rhs.wy),
            zw: self.zw.spec_sub(rhs.zw),
        }
    }

    /// Subtracts `rhs` componentwise.
    pub fn sub(&self, rhs: Bivec4<S>) -> (r: Bivec4<S>)
        ensures
            r == self.spec_sub(rhs),
    {
        Bivec4 {
            xy: self.xy.sub(rhs.xy),
            xz: self.xz.sub(rhs.xz),
            xw: self.xw.sub(rhs.xw),
            yz: self.yz.sub(rhs.yz),
            wy: self.wy.sub(rhs.wy),
            zw: self.zw.sub(rhs.zw),
        }
    }

    /// The square of the bivector: the scalar part is minus the sum of the
    /// squared components (always nonpositive), the quadvector part is twice
    /// the sum of the products of complementary planes.
    pub open spec fn spec_square(self) -> ScalarPlusQuadvec4<S> {
        ScalarPlusQuadvec4 {
            c: self.xy.spec_mul(self.xy).spec_add(self.xz.spec_mul(self.xz)).spec_add(
                self.xw.spec_mul(self.xw),
            ).spec_add(self.yz.spec_mul(self.yz)).spec_add(self.wy.spec_mul(self.wy)).spec_add(
                self.zw.spec_mul(self.zw),
            ).spec_neg(),
            xyzw: S::spec_two().spec_mul(
                self.xy.spec_mul(self.zw).spec_add(self.xz.spec_mul(self.wy)).spec_add(
                    self.xw.spec_mul(self.yz),
                ),
            ),
        }
    }

    /// Returns the square of the bivector, as a [`ScalarPlusQuadvec4`].
    pub fn square(&self) -> (r: ScalarPlusQuadvec4<S>)
        ensures
            r == self.spec_square(),
    {
        ScalarPlusQuadvec4 {
            c: self.xy.mul(self.xy).add(self.xz.mul(self.xz)).add(self.xw.mul(self.xw)).add(
                self.yz.mul(self.yz),
            ).add(self.wy.mul(self.wy)).add(self.zw.mul(self.zw)).neg(),
            xyzw: S::two().mul(
                self.xy.mul(self.zw).add(self.xz.mul(self.wy)).add(self.xw.mul(self.yz)),
            ),
        }
    }

    /// The quadvector coefficient of the wedge product of two bivectors.
    pub open spec fn spec_wedge(self, other: Bivec4<S>) -> S {
        self.xy.spec_mul(other.zw).spec_add(self.xz.spec_mul(other.wy)).spec_add(
            self.xw.spec_mul(other.yz),
        ).spec_add(self.yz.spec_mul(other.xw)).spec_add(self.wy.spec_mul(other.xz)).spec_add(
            self.zw.spec_mul(other.xy),
        )
    }

    /// Returns the quadvector component of the wedge product of `self` and
    /// `other`.
    pub fn wedge(&self, other: Bivec4<S>) -> (r: S)
        ensures
            r == self.spec_wedge(other),
    {
        self.xy.mul(other.zw).add(self.xz.mul(other.wy)).add(self.xw.mul(other.yz)).add(
            self.yz.mul(other.xw),
        ).add(self.wy.mul(other.xz)).add(self.zw.mul(other.xy))
    }

    /// The magnitude this bivector has when it is simple: the square root of
    /// the absolute value of the scalar part of its square.
    pub open spec fn spec_simple_magnitude(self) -> S {
        self.spec_square().c.spec_abs().spec_sqrt()
    }

    /// The normalization this bivector has when it is simple: scaled by the
    /// reciprocal of the magnitude, or zero when the magnitude is exactly
    /// zero.
    pub open spec fn spec_simple_normalized(self) -> Bivec4<S> {
        if self.spec_simple_magnitude() == S::spec_zero() {
            Bivec4::spec_zero()
        } else {
            self.spec_scaled(S::spec_one().spec_div(self.spec_simple_magnitude()))
        }
    }

    /// The dual bivector: each plane is mapped to its complementary plane.
    pub open spec fn spec_dual(self) -> Bivec4<S> {
        Bivec4 { xy: self.zw, xz: self.wy, xw: self.yz, yz: self.xw, wy: self.xz, zw: self.xy }
    }

    /// The determinant-like quantity that decides how the bivector factors:
    /// the square root of the difference of the squared parts of its square.
    pub open spec fn spec_factor_det(self) -> S {
        let sq = self.spec_square();
        sq.c.spec_mul(sq.c).spec_sub(sq.xyzw.spec_mul(sq.xyzw)).spec_sqrt()
    }

    /// The first simple component of the factorization: when the determinant
    /// is within tolerance of zero the planes touching the x axis, already
    /// orthogonal to the rest; otherwise the bivector acted on by the first
    /// scalar-plus-quadvector factor, rescaled.
    pub open spec fn spec_factor_first(self) -> Bivec4<S> {
        let sq = self.spec_square();
        let det = self.spec_factor_det();
        if spec_approx_equal(det.spec_abs(), S::spec_zero(), S::spec_eps()) {
            Bivec4 {
                xy: self.xy,
                xz: self.xz,
                xw: self.xw,
                yz: S::spec_zero(),
                wy: S::spec_zero(),
                zw: S::spec_zero(),
            }
        } else {
            let factor = ScalarPlusQuadvec4 { c: sq.c.spec_neg().spec_add(det), xyzw: sq.xyzw };
            factor.spec_mul(self).spec_scaled(
                S::spec_one().spec_div(S::spec_two().spec_mul(det)),
            )
        }
    }

    /// The second simple component of the factorization, the counterpart of
    /// [`Bivec4::spec_factor_first`].
    pub open spec fn spec_factor_second(self) -> Bivec4<S> {
        let sq = self.spec_square();
        let det = self.spec_factor_det();
        if spec_approx_equal(det.spec_abs(), S::spec_zero(), S::spec_eps()) {
            Bivec4 {
                xy: S::spec_zero(),
                xz: S::spec_zero(),
                xw: S::spec_zero(),
                yz: self.yz,
                wy: self.wy,
                zw: self.zw,
            }
        } else {
            let factor = ScalarPlusQuadvec4 {
                c: sq.c.spec_add(det),
                xyzw: sq.xyzw.spec_neg(),
            };
            factor.spec_mul(self).spec_scaled(
                S::spec_one().spec_div(S::spec_two().spec_mul(det)),
            )
        }
    }

    /// Factors this bivector `B` into the sum of two *simple*, *orthogonal*
    /// bivectors: `B = B1 + B2`, the two commute, and each squares to a pure
    /// scalar. Both components are simple by construction; the unchecked
    /// conversion records that analytic guarantee.
    pub fn factor_into_simple_orthogonal(&self) -> (r: (SimpleBivec4<S>, SimpleBivec4<S>))
        ensures
            r.0.spec_bivec() == self.spec_factor_first(),
            r.1.spec_bivec() == self.spec_factor_second(),
    {
        let squared = self.square();
        let det = squared.c.mul(squared.c).sub(squared.xyzw.mul(squared.xyzw)).sqrt();
        if approx_equal(det.abs(), S::zero(), S::eps()) {
            (
                SimpleBivec4::force_simple(
                    Bivec4 {
                        xy: self.xy,
                        xz: self.xz,
                        xw: self.xw,
                        yz: S::zero(),
                        wy: S::zero(),
                        zw: S::zero(),
                    },
                ),
                SimpleBivec4::force_simple(
                    Bivec4 {
                        xy: S::zero(),
                        xz: S::zero(),
                        xw: S::zero(),
                        yz: self.yz,
                        wy: self.wy,
                        zw: self.zw,
                    },
                ),
            )
        } else {
            let factor1 = ScalarPlusQuadvec4 { c: squared.c.neg().add(det), xyzw: squared.xyzw };
            let factor2 = ScalarPlusQuadvec4 { c: squared.c.add(det), xyzw: squared.xyzw.neg() };
            let scale = S::one().div(S::two().mul(det));
            (
                SimpleBivec4::force_simple(factor1.mul(*self).scaled(scale)),
                SimpleBivec4::force_simple(factor2.mul(*self).scaled(scale)),
            )
        }
    }

    /// The bivector exponential as a double rotation: factor into simple
    /// orthogonal components, take each component's magnitude as its angle,
    /// and combine `cos`/`sin` terms; the quadvector term carries the wedge
    /// of the two normalized components, correcting for the
    /// commutation-basis ambiguity.
    pub closed spec fn spec_exp(self) -> Rotor4<S> {
        let angle1 = self.spec_factor_first().spec_simple_magnitude();
        let angle2 = self.spec_factor_second().spec_simple_magnitude();
        let b1 = self.spec_factor_first().spec_simple_normalized();
        let b2 = self.spec_factor_second().spec_simple_normalized();
        let w = b1.spec_wedge(b2);
        Rotor4 {
            c: angle1.spec_cos().spec_mul(angle2.spec_cos()),
            bivec: b1.spec_scaled(angle1.spec_sin().spec_mul(angle2.spec_cos())).spec_add(
                b2.spec_scaled(angle1.spec_cos().spec_mul(angle2.spec_sin())),
            ),
            xyzw: angle1.spec_sin().spec_mul(angle2.spec_sin()).spec_mul(w),
        }
    }

    /// The bivector exponential: maps a polar representation, angle times
    /// plane, to the rotor that rotates by that angle.
    pub fn exp(&self) -> (r: Rotor4<S>)
        ensures
            r == self.spec_exp(),
            r.spec_c() == self.spec_factor_first().spec_simple_magnitude().spec_cos().spec_mul(
                self.spec_factor_second().spec_simple_magnitude().spec_cos(),
            ),
    {
        let (b1, b2) = self.factor_into_simple_orthogonal();
        let angle1 = b1.magnitude();
        let angle2 = b2.magnitude();
        let b1 = b1.normalized();
        let b2 = b2.normalized();
        let w = b1.bivec.wedge(b2.bivec);
        let angle1_sin = angle1.sin();
        let angle1_cos = angle1.cos();
        let angle2_sin = angle2.sin();
        let angle2_cos = angle2.cos();
        Rotor4 {
            c: angle1_cos.mul(angle2_cos),
            bivec: b1.scaled(angle1_sin.mul(angle2_cos)).add(b2.scaled(angle1_cos.mul(angle2_sin))),
            xyzw: angle1_sin.mul(angle2_sin).mul(w),
        }
    }

    /// The product of a bivector with a scalar-plus-quadvector, which is
    /// again a bivector. The two orders agree.
    pub open spec fn spec_mul_scalar_quadvec(self, rhs: ScalarPlusQuadvec4<S>) -> Bivec4<S> {
        rhs.spec_mul(self)
    }

    /// Multiplies this bivector by a scalar-plus-quadvector.
    pub fn mul_scalar_quadvec(&self, rhs: ScalarPlusQuadvec4<S>) -> (r: Bivec4<S>)
        ensures
            r == self.spec_mul_scalar_quadvec(rhs),
    {
        rhs.mul(*self)
    }
}

impl<S: Scalar> ScalarPlusQuadvec4<S> {
    /// The product with a bivector: multiplication by the scalar part plus
    /// multiplication by the quadvector, which maps each plane to its
    /// complementary plane with a sign flip.
    pub open spec fn spec_mul(self, rhs: Bivec4<S>) -> Bivec4<S> {
        Bivec4 {
            xy: self.c.spec_mul(rhs.xy).spec_sub(self.xyzw.spec_mul(rhs.zw)),
            xz: self.c.spec_mul(rhs.xz).spec_sub(self.xyzw.spec_mul(rhs.wy)),
            xw: self.c.spec_mul(rhs.xw).spec_sub(self.xyzw.spec_mul(rhs.yz)),
            yz: self.c.spec_mul(rhs.yz).spec_sub(self.xyzw.spec_mul(rhs.xw)),
            wy: self.c.spec_mul(rhs.wy).spec_sub(self.xyzw.spec_mul(rhs.xz)),
            zw: self.c.spec_mul(rhs.zw).spec_sub(self.xyzw.spec_mul(rhs.xy)),
        }
    }

    /// Multiplies this scalar-plus-quadvector by a bivector.
    pub fn mul(&self, rhs: Bivec4<S>) -> (r: Bivec4<S>)
        ensures
            r == self.spec_mul(rhs),
    {
        Bivec4 {
            xy: self.c.mul(rhs.xy).sub(self.xyzw.mul(rhs.zw)),
            xz: self.c.mul(rhs.xz).sub(self.xyzw.mul(rhs.wy)),
            xw: self.c.mul(rhs.xw).sub(self.xyzw.mul(rhs.yz)),
            yz: self.c.mul(rhs.yz).sub(self.xyzw.mul(rhs.xw)),
            wy: self.c.mul(rhs.wy).sub(self.xyzw.mul(rhs.xz)),
            zw: self.c.mul(rhs.zw).sub(self.xyzw.mul(rhs.xy)),
        }
    }
}

/// A special case of [`Bivec4`]: a 4D bivector which squares to a pure
/// scalar, representing a rotation confined to a single plane. Constructed
/// through the fallible [`SimpleBivec4::try_from`], which checks that the
/// quadvector part of the square is approximately zero; internal call sites
/// where simplicity is analytically guaranteed use an unchecked constructor.
#[derive(Clone, Copy, Debug)]
pub struct SimpleBivec4<S> {
    bivec: Bivec4<S>,
}

/// A failure of a bivector operation.
#[derive(Clone, Copy, Debug)]
pub enum RotorError<S> {
    /// The bivector was not simple: the quadvector component of its square
    /// (carried alongside the bivector) exceeded the tolerance.
    NotSimple(Bivec4<S>, S),
}

/// Whether the quadvector part of the bivector's square is within the
/// engine's tolerance of zero, i.e. whether the bivector represents a
/// rotation confined to a single plane, up to numerical error.
pub open spec fn spec_is_simple<S: Scalar>(bivec: Bivec4<S>) -> bool {
    spec_approx_equal(bivec.spec_square().xyzw, S::spec_zero(), S::spec_eps())
}

impl<S: Scalar> SimpleBivec4<S> {
    /// The underlying bivector.
    pub closed spec fn spec_bivec(self) -> Bivec4<S> {
        self.bivec
    }

    /// Getter for the underlying bivector.
    pub fn bivec(&self) -> (r: Bivec4<S>)
        ensures
            r == self.spec_bivec(),
    {
        self.bivec
    }

    /// The fallible conversion from a general bivector: succeeds if and only
    /// if the quadvector part of the bivector's square is within tolerance
    /// of zero, and otherwise reports the offending quadvector part.
    pub fn try_from(value: Bivec4<S>) -> (r: Result<SimpleBivec4<S>, RotorError<S>>)
        ensures
            spec_is_simple(value) ==> (r matches Ok(s) && s.spec_bivec() == value),
            !spec_is_simple(value) ==> r == Err::<SimpleBivec4<S>, RotorError<S>>(
                RotorError::NotSimple(value, value.spec_square().xyzw),
            ),
    {
        let square = value.square();
        // This check can fail for bivectors with large magnitude, but works
        // up to a magnitude of about one hundred, which is fine for
        // rotations.
        if approx_equal(square.xyzw, S::zero(), S::eps()) {
            Ok(SimpleBivec4 { bivec: value })
        } else {
            Err(RotorError::NotSimple(value, square.xyzw))
        }
    }

    /// The unchecked constructor, for bivectors that are mathematically
    /// guaranteed to be simple but might not be due to numerical error.
    /// Keeping the check out of this path is a deliberate tradeoff: the
    /// consequence of an input that drifted from simplicity is an inexact
    /// result, not an invalid state.
    pub(crate) fn force_simple(bivec: Bivec4<S>) -> (r: SimpleBivec4<S>)
        ensures
            r.spec_bivec() == bivec,
    {
        SimpleBivec4 { bivec }
    }

    /// The scalar this simple bivector squares to (the scalar part of the
    /// square of the underlying bivector).
    pub open spec fn spec_square(self) -> S {
        self.spec_bivec().spec_square().c
    }

    /// The square of this simple bivector, a pure scalar.
    pub fn square(&self) -> (r: S)
        ensures
            r == self.spec_square(),
    {
        self.bivec.square().c
    }

    /// The magnitude: the square root of the absolute value of the square.
    pub open spec fn spec_magnitude(self) -> S {
        self.spec_square().spec_abs().spec_sqrt()
    }

    /// The magnitude of this simple bivector.
    pub fn magnitude(&self) -> (r: S)
        ensures
            r == self.spec_magnitude(),
    {
        self.square().abs().sqrt()
    }

    /// Multiplies this bivector by a positive scalar so that it squares to
    /// minus one. If zero, returns zero.
    pub fn normalized(&self) -> (r: SimpleBivec4<S>)
        ensures
            r.spec_bivec() == self.spec_bivec().spec_simple_normalized(),
    {
        let magnitude = self.magnitude();
        let bivec = if magnitude.eq_zero() {
            Bivec4::zero()
        } else {
            self.bivec.scaled(S::one().div(magnitude))
        };
        SimpleBivec4 { bivec }
    }

    /// Scales this simple bivector by a scalar. Scaling cannot leave the
    /// plane the bivector is confined to.
    pub fn scaled(&self, scale: S) -> (r: SimpleBivec4<S>)
        ensures
            r.spec_bivec() == self.spec_bivec().spec_scaled(scale),
    {
        SimpleBivec4 { bivec: self.bivec.scaled(scale) }
    }

    /// Negates this simple bivector.
    pub fn neg(&self) -> (r: SimpleBivec4<S>)
        ensures
            r.spec_bivec() == self.spec_bivec().spec_neg(),
    {
        SimpleBivec4 { bivec: self.bivec.neg() }
    }

    /// The sum of two simple bivectors. In four dimensions the sum of simple
    /// bivectors is not necessarily simple, so this returns a [`Bivec4`].
    pub open spec fn spec_add(self, rhs: SimpleBivec4<S>) -> Bivec4<S> {
        self.spec_bivec().spec_add(rhs.spec_bivec())
    }

    /// Adds two simple bivectors, giving a general bivector.
    pub fn add(&self, rhs: SimpleBivec4<S>) -> (r: Bivec4<S>)
        ensures
            r == self.spec_add(rhs),
    {
        self.bivec.add(rhs.bivec)
    }

    /// The exponential of a simple bivector with magnitude `theta`:
    /// `cos(theta)` plus `sin(theta)` times the normalized plane, with no
    /// quadvector part.
    pub closed spec fn spec_exp(self) -> Rotor4<S> {
        let theta = self.spec_bivec().spec_simple_magnitude();
        Rotor4 {
            c: theta.spec_cos(),
            bivec: self.spec_bivec().spec_simple_normalized().spec_scaled(theta.spec_sin()),
            xyzw: S::spec_zero(),
        }
    }

    /// The bivector exponential, the special case for *simple* bivectors:
    /// `exp(theta * B) = cos(theta) + sin(theta) * B` when `B` squares to
    /// minus one; the same argument as for the complex exponential.
    pub fn exp(&self) -> (r: Rotor4<S>)
        ensures
            r == self.spec_exp(),
            r.spec_c() == self.spec_bivec().spec_simple_magnitude().spec_cos(),
            r.spec_bivec() == self.spec_bivec().spec_simple_normalized().spec_scaled(
                self.spec_bivec().spec_simple_magnitude().spec_sin(),
            ),
            r.spec_xyzw() == S::spec_zero(),
    {
        let theta = self.magnitude();
        let normalized = self.normalized();
        Rotor4 { c: theta.cos(), bivec: normalized.bivec.scaled(theta.sin()), xyzw: S::zero() }
    }
}

/// A rotation in four dimensions: the even sub-algebra element
/// `(c, bivec, xyzw)`, scalar plus bivector plus pseudoscalar. There is no
/// direct constructor because the unit-rotor constraints are tricky: every
/// public constructor and composition renormalizes, which keeps numerical
/// drift bounded under repeated composition.
#[derive(Clone, Copy, Debug)]
pub struct Rotor4<S> {
    c: S,
    bivec: Bivec4<S>,
    xyzw: S,
}

impl<S: Scalar> Rotor4<S> {
    /// The scalar term of the rotor.
    pub closed spec fn spec_c(self) -> S {
        self.c
    }

    /// The bivector components of the rotor.
    pub closed spec fn spec_bivec(self) -> Bivec4<S> {
        self.bivec
    }

    /// The quadvector component of the rotor.
    pub closed spec fn spec_xyzw(self) -> S {
        self.xyzw
    }

    /// Getter for the scalar term of the rotor.
    pub fn c(&self) -> (r: S)
        ensures
            r == self.spec_c(),
    {
        self.c
    }

    /// Getter for the bivector components of the rotor.
    pub fn bivec(&self) -> (r: Bivec4<S>)
        ensures
            r == self.spec_bivec(),
    {
        self.bivec
    }

    /// Getter for the quadvector component of the rotor.
    pub fn xyzw(&self) -> (r: S)
        ensures
            r == self.spec_xyzw(),
    {
        self.xyzw
    }

    /// The identity rotor: scalar one, everything else zero.
    pub closed spec fn spec_identity() -> Rotor4<S> {
        Rotor4 { c: S::spec_one(), bivec: Bivec4::spec_zero(), xyzw: S::spec_zero() }
    }

    /// The rotor that rotates nothing.
    pub fn identity() -> (r: Rotor4<S>)
        ensures
            r == Self::spec_identity(),
            r.spec_c() == S::spec_one(),
            r.spec_bivec() == Bivec4::<S>::spec_zero(),
            r.spec_xyzw() == S::spec_zero(),
    {
        Rotor4 { c: S::one(), bivec: Bivec4::zero(), xyzw: S::zero() }
    }

    /// The quadvector component recovered from the bivector: when the scalar
    /// term is not within tolerance of zero, the unit-rotor constraint
    /// determines the quadvector as the quadvector part of the bivector's
    /// square over twice the scalar.
    pub open spec fn spec_recovered_xyzw(c: S, bivec: Bivec4<S>, xyzw: S) -> S {
        if !spec_approx_equal(c, S::spec_zero(), S::spec_eps()) {
            bivec.spec_square().xyzw.spec_div(S::spec_two().spec_mul(c))
        } else {
            xyzw
        }
    }

    /// The scalar part of `R` times its reverse: `c^2 + xyzw^2` minus the
    /// scalar part of the bivector's square. One for a unit rotor.
    pub open spec fn spec_error_c(c: S, bivec: Bivec4<S>, xyzw: S) -> S {
        c.spec_mul(c).spec_add(xyzw.spec_mul(xyzw)).spec_sub(bivec.spec_square().c)
    }

    /// The quadvector part of `R` times its reverse: twice `c` times `xyzw`
    /// minus the quadvector part of the bivector's square. Zero for a unit
    /// rotor.
    pub open spec fn spec_error_xyzw(c: S, bivec: Bivec4<S>, xyzw: S) -> S {
        S::spec_two().spec_mul(c).spec_mul(xyzw).spec_sub(bivec.spec_square().xyzw)
    }

    /// Computes `R` times its reverse, which is `(1, 0)` exactly when the
    /// rotor is properly normalized; the distance from that is the
    /// normalization error that renormalization divides out.
    pub fn normalization_error(&self) -> (r: ScalarPlusQuadvec4<S>)
        ensures
            r.c == Self::spec_error_c(self.spec_c(), self.spec_bivec(), self.spec_xyzw()),
            r.xyzw == Self::spec_error_xyzw(self.spec_c(), self.spec_bivec(), self.spec_xyzw()),
    {
        let bivec_squared = self.bivec.square();
        // Should be one.
        let magnitude = self.c.mul(self.c).add(self.xyzw.mul(self.xyzw)).sub(bivec_squared.c);
        // Should be zero.
        let xyzw_err = S::two().mul(self.c).mul(self.xyzw).sub(bivec_squared.xyzw);
        ScalarPlusQuadvec4 { c: magnitude, xyzw: xyzw_err }
    }

    /// The renormalization of a raw component triple: first recover the
    /// quadvector from the bivector when the scalar term allows it, then
    /// rescale everything by the square root of the error term, restoring
    /// the unit-rotor invariant.
    pub closed spec fn spec_normalized_parts(c: S, bivec: Bivec4<S>, xyzw: S) -> Rotor4<S> {
        let x2 = Self::spec_recovered_xyzw(c, bivec, xyzw);
        let magnitude = Self::spec_error_c(c, bivec, x2).spec_sqrt();
        Rotor4 {
            c: c.spec_div(magnitude),
            bivec: bivec.spec_scaled(S::spec_one().spec_div(magnitude)),
            xyzw: x2.spec_div(magnitude),
        }
    }

    /// The renormalization of this rotor.
    pub closed spec fn spec_normalized(self) -> Rotor4<S> {
        Self::spec_normalized_parts(self.c, self.bivec, self.xyzw)
    }

    /// Internal: users should not have to call this; the implementation
    /// guarantees that rotors handed out stay normalized.
    fn normalized(self) -> (r: Rotor4<S>)
        ensures
            r == self.spec_normalized(),
    {
        let xyzw = if !approx_equal(self.c, S::zero(), S::eps()) {
            self.bivec.square().xyzw.div(S::two().mul(self.c))
        } else {
            self.xyzw
        };
        let recovered = Rotor4 { c: self.c, bivec: self.bivec, xyzw };
        let error = recovered.normalization_error();
        let magnitude = error.c.sqrt();
        Rotor4 {
            c: self.c.div(magnitude),
            bivec: self.bivec.scaled(S::one().div(magnitude)),
            xyzw: xyzw.div(magnitude),
        }
    }

    /// Builds a rotor from a raw component triple. Like every public
    /// constructor it renormalizes, so the components handed back by the
    /// getters are the renormalized ones; a triple that already satisfies
    /// the unit-rotor invariant passes through unchanged up to rounding.
    pub fn from_parts(c: S, bivec: Bivec4<S>, xyzw: S) -> (r: Rotor4<S>)
        ensures
            r == Self::spec_normalized_parts(c, bivec, xyzw),
    {
        Rotor4 { c, bivec, xyzw }.normalized()
    }

    /// The rotor aligning `from` with `to`: both inputs normalized, scalar
    /// part their dot product, bivector part their wedge, no quadvector,
    /// renormalized. It rotates in the plane of the two vectors by twice the
    /// angle between them.
    pub closed spec fn spec_between<V: Vector4<S>>(from: V, to: V) -> Rotor4<S> {
        let f = from.spec_normalized();
        let t = to.spec_normalized();
        Self::spec_normalized_parts(f.spec_dot(t), spec_wedge(f, t), S::spec_zero())
    }

    /// Makes a rotor that rotates in the plane of `from` and `to` by twice
    /// the angle between them.
    pub fn between<V: Vector4<S>>(from: V, to: V) -> (r: Rotor4<S>)
        ensures
            r == Self::spec_between(from, to),
    {
        let from = from.normalized();
        let to = to.normalized();
        Rotor4 { c: from.dot(to), bivec: wedge(from, to), xyzw: S::zero() }.normalized()
    }

    /// The rotor that rotates by the angles given in the components of the
    /// bivector: half the bivector's exponential, renormalized. The halving
    /// compensates for a rotor rotating by twice its angle.
    pub closed spec fn spec_from_bivec_angles(bivec: Bivec4<S>) -> Rotor4<S> {
        bivec.spec_scaled(S::spec_half()).spec_exp().spec_normalized()
    }

    /// Makes a rotor that rotates by the angles specified in the components
    /// of the input.
    pub fn from_bivec_angles(bivec: Bivec4<S>) -> (r: Rotor4<S>)
        ensures
            r == Self::spec_from_bivec_angles(bivec),
    {
        // A rotor rotates by twice the angle; scale by half to compensate.
        bivec.scaled(S::half()).exp().normalized()
    }

    /// The angle of a simple rotation read back from the rotor: the
    /// arctangent of the bivector magnitude over the absolute scalar term,
    /// reflected into the second quadrant when the scalar term is negative.
    pub open spec fn spec_log_simple_angle(self) -> S {
        let abs_angle = self.spec_bivec().spec_simple_magnitude().spec_div(
            self.spec_c().spec_abs(),
        ).spec_atan();
        if S::spec_zero().spec_lt(self.spec_c()) {
            abs_angle
        } else {
            S::spec_pi().spec_sub(abs_angle)
        }
    }

    /// The plane an isoclinic rotor is logarithmized along: the rotor's own
    /// bivector, or the xy plane when that bivector vanishes and any simple
    /// plane works.
    pub open spec fn spec_isoclinic_base(self) -> Bivec4<S> {
        if spec_approx_equal(
            self.spec_bivec().spec_simple_magnitude(),
            S::spec_zero(),
            S::spec_eps(),
        ) {
            Bivec4 {
                xy: S::spec_one(),
                xz: S::spec_zero(),
                xw: S::spec_zero(),
                yz: S::spec_zero(),
                wy: S::spec_zero(),
                zw: S::spec_zero(),
            }
        } else {
            self.spec_bivec()
        }
    }

    /// The pair of unsigned angles of a general double rotation, computed
    /// from whichever of the scalar and quadvector terms is larger in
    /// magnitude, for precision.
    pub open spec fn spec_log_double_abs_angles(self) -> (S, S) {
        let mag1 = self.spec_bivec().spec_factor_first().spec_simple_magnitude();
        let mag2 = self.spec_bivec().spec_factor_second().spec_simple_magnitude();
        let c_abs = self.spec_c().spec_abs();
        let xyzw_abs = self.spec_xyzw().spec_abs();
        if xyzw_abs.spec_lt(c_abs) {
            (mag1.spec_div(c_abs).spec_atan(), mag2.spec_div(c_abs).spec_atan())
        } else {
            (xyzw_abs.spec_div(mag2).spec_atan(), xyzw_abs.spec_div(mag1).spec_atan())
        }
    }

    /// The signed angles of a general double rotation: the unsigned angles
    /// placed into the quadrants that the signs of the scalar and quadvector
    /// terms call for.
    pub open spec fn spec_log_double_angles(self) -> (S, S) {
        let abs_angles = self.spec_log_double_abs_angles();
        let sign_c = S::spec_zero().spec_lt(self.spec_c());
        let sign_xyzw = S::spec_zero().spec_lt(self.spec_xyzw());
        if sign_c && sign_xyzw {
            (abs_angles.0, abs_angles.1)
        } else if sign_c && !sign_xyzw {
            (abs_angles.0, abs_angles.1.spec_neg())
        } else if !sign_c && sign_xyzw {
            (abs_angles.0.spec_neg().spec_add(S::spec_pi()), abs_angles.1)
        } else {
            (abs_angles.0.spec_neg().spec_add(S::spec_pi()), abs_angles.1.spec_neg())
        }
    }

    /// The second factor plane of a general double rotation, flipped when
    /// the product of the first angle's cosine and the second angle's sine
    /// is negative, so the bivector components still sum to the right value.
    pub open spec fn spec_log_double_bivec2(self) -> Bivec4<S> {
        let angles = self.spec_log_double_angles();
        let b2 = self.spec_bivec().spec_factor_second().spec_simple_normalized();
        if angles.0.spec_cos().spec_mul(angles.1.spec_sin()).spec_lt(S::spec_zero()) {
            b2.spec_scaled(S::spec_one().spec_neg())
        } else {
            b2
        }
    }

    /// The logarithm of this rotor, with the three cases distinguished by
    /// which of the quadvector and scalar terms vanish.
    pub closed spec fn spec_log(self) -> RotorLog4<S> {
        if spec_is_simple(self.bivec) && spec_approx_equal(
            self.xyzw,
            S::spec_zero(),
            S::spec_eps(),
        ) {
            RotorLog4::Simple {
                bivec: SimpleBivec4 { bivec: self.bivec.spec_simple_normalized() },
                angle: self.spec_log_simple_angle(),
            }
        } else if spec_is_simple(self.bivec) && spec_approx_equal(
            self.c,
            S::spec_zero(),
            S::spec_eps(),
        ) {
            let base = self.spec_isoclinic_base().spec_simple_normalized();
            RotorLog4::DoubleRotation {
                bivec1: SimpleBivec4 { bivec: base.spec_dual() },
                angle1: self.xyzw.spec_atan2(self.bivec.spec_simple_magnitude()),
                bivec2: SimpleBivec4 { bivec: base },
                angle2: S::spec_half_pi(),
            }
        } else {
            let angles = self.spec_log_double_angles();
            RotorLog4::DoubleRotation {
                bivec1: SimpleBivec4 {
                    bivec: self.bivec.spec_factor_first().spec_simple_normalized()
                        .spec_simple_normalized(),
                },
                angle1: angles.0,
                bivec2: SimpleBivec4 {
                    bivec: self.spec_log_double_bivec2().spec_simple_normalized(),
                },
                angle2: angles.1,
            }
        }
    }

    /// Inverse of a bivector exponential. Returns a "polar" representation
    /// of the rotor: a simple rotation when the quadvector term is within
    /// tolerance of zero, the isoclinic resolution when the scalar term is,
    /// and otherwise the factored double rotation with quadrant-corrected
    /// angles.
    pub fn log(&self) -> (r: RotorLog4<S>)
        ensures
            r == self.spec_log(),
            spec_is_simple(self.spec_bivec()) && spec_approx_equal(
                self.spec_xyzw(),
                S::spec_zero(),
                S::spec_eps(),
            ) ==> (r matches RotorLog4::Simple { bivec, angle } && bivec.spec_bivec()
                == self.spec_bivec().spec_simple_normalized() && angle
                == self.spec_log_simple_angle()),
    {
        let bivec_simple = SimpleBivec4::try_from(self.bivec);
        match bivec_simple {
            Ok(bivec) if approx_equal(self.xyzw, S::zero(), S::eps()) => {
                let abs_angle = bivec.magnitude().div(self.c.abs()).atan();
                let angle = if S::zero().lt(self.c) {
                    abs_angle
                } else {
                    S::pi().sub(abs_angle)
                };
                RotorLog4::Simple { bivec: bivec.normalized(), angle }
            },
            Ok(bivec) if approx_equal(self.c, S::zero(), S::eps()) => {
                let bivec2_magnitude = bivec.magnitude();
                // If the bivector component is zero, this is an isoclinic
                // rotation and any simple bivector works.
                let bivec2 = if approx_equal(bivec2_magnitude, S::zero(), S::eps()) {
                    SimpleBivec4::force_simple(
                        Bivec4 {
                            xy: S::one(),
                            xz: S::zero(),
                            xw: S::zero(),
                            yz: S::zero(),
                            wy: S::zero(),
                            zw: S::zero(),
                        },
                    )
                } else {
                    bivec
                };
                let angle1 = self.xyzw.atan2(bivec2_magnitude);
                let angle2 = S::half_pi();
                let bivec2 = bivec2.normalized();
                let b = bivec2.bivec();
                let bivec1 = SimpleBivec4::force_simple(
                    Bivec4 { xy: b.zw, xz: b.wy, xw: b.yz, yz: b.xw, wy: b.xz, zw: b.xy },
                );
                RotorLog4::DoubleRotation { bivec1, angle1, bivec2, angle2 }
            },
            _ => {
                let (bivec1, bivec2) = self.bivec.factor_into_simple_orthogonal();
                // Because a bivector magnitude is always positive, this is
                // essentially `x` and `|y|`, which breaks atan2: the
                // quadrant has to come from the signs of the other terms.
                // Either the scalar or the quadvector term determines the
                // angles; use the bigger one for precision.
                let mag1 = bivec1.magnitude();
                let mag2 = bivec2.magnitude();
                let (abs_angle1, abs_angle2) = if self.xyzw.abs().lt(self.c.abs()) {
                    (mag1.div(self.c.abs()).atan(), mag2.div(self.c.abs()).atan())
                } else {
                    (self.xyzw.abs().div(mag2).atan(), self.xyzw.abs().div(mag1).atan())
                };
                let bivec1 = bivec1.normalized();
                let bivec2 = bivec2.normalized();

                let sign_c = S::zero().lt(self.c);
                let sign_xyzw = S::zero().lt(self.xyzw);
                let (angle1, angle2) = if sign_c && sign_xyzw {
                    (abs_angle1, abs_angle2)
                } else if sign_c && !sign_xyzw {
                    (abs_angle1, abs_angle2.neg())
                } else if !sign_c && sign_xyzw {
                    (abs_angle1.neg().add(S::pi()), abs_angle2)
                } else {
                    (abs_angle1.neg().add(S::pi()), abs_angle2.neg())
                };
                // If the coefficient for the second plane is negative, flip
                // it so the bivector components still sum to the right
                // value.
                let bivec2 = if angle1.cos().mul(angle2.sin()).lt(S::zero()) {
                    bivec2.scaled(S::one().neg())
                } else {
                    bivec2
                };

                RotorLog4::DoubleRotation {
                    bivec1: bivec1.normalized(),
                    angle1,
                    bivec2: bivec2.normalized(),
                    angle2,
                }
            },
        }
    }

    /// `R` raised to `exponent`: the logarithm, scaled, exponentiated.
    pub closed spec fn spec_pow(self, exponent: S) -> Rotor4<S> {
        self.spec_log().spec_scaled(exponent).spec_exp()
    }

    /// Computes `R^exponent` as `exp(exponent * log(R))`.
    pub fn pow(&self, exponent: S) -> (r: Rotor4<S>)
        ensures
            r == self.spec_pow(exponent),
    {
        self.log().scaled(exponent).exp()
    }

    /// The rotation matrix equivalent to this rotor, as a column-major
    /// array: each entry is a symmetric polynomial in the rotor's eight
    /// scalar components, doubled. This is the rotor sandwich product
    /// written out and simplified.
    pub closed spec fn spec_into_mat4_array(self) -> [[S; 4]; 4] {
        let c = self.c;
        let q = self.xyzw;
        let b = self.bivec;
        [
            [
                S::spec_half().spec_sub(b.xy.spec_mul(b.xy)).spec_sub(b.xz.spec_mul(b.xz))
                    .spec_sub(b.xw.spec_mul(b.xw)).spec_sub(q.spec_mul(q)).spec_mul(S::spec_two()),
                c.spec_mul(b.xy).spec_sub(b.xz.spec_mul(b.yz)).spec_add(b.xw.spec_mul(b.wy))
                    .spec_add(b.zw.spec_mul(q)).spec_mul(S::spec_two()),
                c.spec_mul(b.xz).spec_add(b.xy.spec_mul(b.yz)).spec_sub(b.xw.spec_mul(b.zw))
                    .spec_add(b.wy.spec_mul(q)).spec_mul(S::spec_two()),
                c.spec_mul(b.xw).spec_sub(b.xy.spec_mul(b.wy)).spec_add(b.xz.spec_mul(b.zw))
                    .spec_add(b.yz.spec_mul(q)).spec_mul(S::spec_two()),
            ],
            [
                c.spec_mul(b.xy).spec_neg().spec_sub(b.xz.spec_mul(b.yz)).spec_add(
                    b.xw.spec_mul(b.wy),
                ).spec_sub(b.zw.spec_mul(q)).spec_mul(S::spec_two()),
                S::spec_half().spec_sub(b.xy.spec_mul(b.xy)).spec_sub(b.yz.spec_mul(b.yz))
                    .spec_sub(b.wy.spec_mul(b.wy)).spec_sub(q.spec_mul(q)).spec_mul(S::spec_two()),
                c.spec_mul(b.yz).spec_sub(b.xy.spec_mul(b.xz)).spec_add(b.wy.spec_mul(b.zw))
                    .spec_add(b.xw.spec_mul(q)).spec_mul(S::spec_two()),
                c.spec_mul(b.wy).spec_neg().spec_sub(b.xw.spec_mul(b.xy)).spec_add(
                    b.yz.spec_mul(b.zw),
                ).spec_sub(b.xz.spec_mul(q)).spec_mul(S::spec_two()),
            ],
            [
                c.spec_mul(b.xz).spec_neg().spec_add(b.xy.spec_mul(b.yz)).spec_sub(
                    b.xw.spec_mul(b.zw),
                ).spec_sub(b.wy.spec_mul(q)).spec_mul(S::spec_two()),
                c.spec_mul(b.yz).spec_neg().spec_sub(b.xy.spec_mul(b.xz)).spec_add(
                    b.wy.spec_mul(b.zw),
                ).spec_sub(b.xw.spec_mul(q)).spec_mul(S::spec_two()),
                S::spec_half().spec_sub(b.xz.spec_mul(b.xz)).spec_sub(b.yz.spec_mul(b.yz))
                    .spec_sub(b.zw.spec_mul(b.zw)).spec_sub(q.spec_mul(q)).spec_mul(S::spec_two()),
                c.spec_mul(b.zw).spec_sub(b.xz.spec_mul(b.xw)).spec_add(b.yz.spec_mul(b.wy))
                    .spec_add(b.xy.spec_mul(q)).spec_mul(S::spec_two()),
            ],
            [
                c.spec_mul(b.xw).spec_neg().spec_sub(b.xy.spec_mul(b.wy)).spec_add(
                    b.xz.spec_mul(b.zw),
                ).spec_sub(b.yz.spec_mul(q)).spec_mul(S::spec_two()),
                c.spec_mul(b.wy).spec_sub(b.xy.spec_mul(b.xw)).spec_add(b.yz.spec_mul(b.zw))
                    .spec_add(b.xz.spec_mul(q)).spec_mul(S::spec_two()),
                c.spec_mul(b.zw).spec_neg().spec_sub(b.xz.spec_mul(b.xw)).spec_add(
                    b.yz.spec_mul(b.wy),
                ).spec_sub(b.xy.spec_mul(q)).spec_mul(S::spec_two()),
                S::spec_half().spec_sub(b.xw.spec_mul(b.xw)).spec_sub(b.wy.spec_mul(b.wy))
                    .spec_sub(b.zw.spec_mul(b.zw)).spec_sub(q.spec_mul(q)).spec_mul(S::spec_two()),
            ],
        ]
    }

    /// The rotation matrix that applies the same rotation as this rotor, as
    /// a column-major array of the rotor's component products.
    pub fn into_mat4_array(&self) -> (r: [[S; 4]; 4])
        ensures
            r == self.spec_into_mat4_array(),
    {
        let c = self.c;
        let q = self.xyzw;
        let b = self.bivec;
        [
            [
                S::half().sub(b.xy.mul(b.xy)).sub(b.xz.mul(b.xz)).sub(b.xw.mul(b.xw)).sub(
                    q.mul(q),
                ).mul(S::two()),
                c.mul(b.xy).sub(b.xz.mul(b.yz)).add(b.xw.mul(b.wy)).add(b.zw.mul(q)).mul(S::two()),
                c.mul(b.xz).add(b.xy.mul(b.yz)).sub(b.xw.mul(b.zw)).add(b.wy.mul(q)).mul(S::two()),
                c.mul(b.xw).sub(b.xy.mul(b.wy)).add(b.xz.mul(b.zw)).add(b.yz.mul(q)).mul(S::two()),
            ],
            [
                c.mul(b.xy).neg().sub(b.xz.mul(b.yz)).add(b.xw.mul(b.wy)).sub(b.zw.mul(q)).mul(
                    S::two(),
                ),
                S::half().sub(b.xy.mul(b.xy)).sub(b.yz.mul(b.yz)).sub(b.wy.mul(b.wy)).sub(
                    q.mul(q),
                ).mul(S::two()),
                c.mul(b.yz).sub(b.xy.mul(b.xz)).add(b.wy.mul(b.zw)).add(b.xw.mul(q)).mul(S::two()),
                c.mul(b.wy).neg().sub(b.xw.mul(b.xy)).add(b.yz.mul(b.zw)).sub(b.xz.mul(q)).mul(
                    S::two(),
                ),
            ],
            [
                c.mul(b.xz).neg().add(b.xy.mul(b.yz)).sub(b.xw.mul(b.zw)).sub(b.wy.mul(q)).mul(
                    S::two(),
                ),
                c.mul(b.yz).neg().sub(b.xy.mul(b.xz)).add(b.wy.mul(b.zw)).sub(b.xw.mul(q)).mul(
                    S::two(),
                ),
                S::half().sub(b.xz.mul(b.xz)).sub(b.yz.mul(b.yz)).sub(b.zw.mul(b.zw)).sub(
                    q.mul(q),
                ).mul(S::two()),
                c.mul(b.zw).sub(b.xz.mul(b.xw)).add(b.yz.mul(b.wy)).add(b.xy.mul(q)).mul(S::two()),
            ],
            [
                c.mul(b.xw).neg().sub(b.xy.mul(b.wy)).add(b.xz.mul(b.zw)).sub(b.yz.mul(q)).mul(
                    S::two(),
                ),
                c.mul(b.wy).sub(b.xy.mul(b.xw)).add(b.yz.mul(b.zw)).add(b.xz.mul(q)).mul(S::two()),
                c.mul(b.zw).neg().sub(b.xz.mul(b.xw)).add(b.yz.mul(b.wy)).sub(b.xy.mul(q)).mul(
                    S::two(),
                ),
                S::half().sub(b.xw.mul(b.xw)).sub(b.wy.mul(b.wy)).sub(b.zw.mul(b.zw)).sub(
                    q.mul(q),
                ).mul(S::two()),
            ],
        ]
    }

    /// Creates a 4x4 rotation matrix that applies the same rotation as this
    /// rotor.
    pub fn into_mat4<M: Matrix4<S>>(&self) -> (r: M)
        ensures
            r == M::spec_from_array(self.spec_into_mat4_array()),
    {
        M::from_array(self.into_mat4_array())
    }
}

impl<S: Scalar, V: Vector4<S>> Transform<V> for Rotor4<S> {
    /// A rotor acts on a 4-vector through its equivalent rotation matrix;
    /// this is the only place vectors are transformed, keeping the algebra
    /// and the vector-space action decoupled.
    open spec fn spec_transform(&self, operand: V) -> V {
        V::Matrix4::spec_from_array(self.spec_into_mat4_array()).spec_mul_vec(operand)
    }

    fn transform(&self, operand: V) -> (r: V) {
        let matrix: V::Matrix4 = self.into_mat4();
        matrix.mul_vec(operand)
    }
}

impl<S: Scalar> Compose<Rotor4<S>> for Rotor4<S> {
    type Composed = Rotor4<S>;

    /// The full geometric product of two rotors truncated to grades zero,
    /// two and four — the sum of the two "scalar-plus-pseudoscalar times
    /// bivector" actions plus the bivector commutator cross terms — always
    /// followed by renormalization.
    closed spec fn spec_compose(&self, other: Rotor4<S>) -> Rotor4<S> {
        let a_scalarquadvec_b_bivec = ScalarPlusQuadvec4 { c: self.c, xyzw: self.xyzw }.spec_mul(
            other.bivec,
        );
        let b_scalarquadvec_a_bivec = ScalarPlusQuadvec4 { c: other.c, xyzw: other.xyzw }.spec_mul(
            self.bivec,
        );
        let a = self.bivec;
        let o = other.bivec;
        let cross = Bivec4 {
            xy: a.xz.spec_mul(o.yz).spec_neg().spec_add(a.xw.spec_mul(o.wy)).spec_add(
                a.yz.spec_mul(o.xz),
            ).spec_sub(a.wy.spec_mul(o.xw)),
            xz: a.xy.spec_mul(o.yz).spec_sub(a.xw.spec_mul(o.zw)).spec_sub(a.yz.spec_mul(o.xy))
                .spec_add(a.zw.spec_mul(o.xw)),
            xw: a.xy.spec_mul(o.wy).spec_neg().spec_add(a.xz.spec_mul(o.zw)).spec_add(
                a.wy.spec_mul(o.xy),
            ).spec_sub(a.zw.spec_mul(o.xz)),
            yz: a.xy.spec_mul(o.xz).spec_neg().spec_add(a.xz.spec_mul(o.xy)).spec_add(
                a.wy.spec_mul(o.zw),
            ).spec_sub(a.zw.spec_mul(o.wy)),
            wy: a.xy.spec_mul(o.xw).spec_sub(a.xw.spec_mul(o.xy)).spec_sub(a.yz.spec_mul(o.zw))
                .spec_add(a.zw.spec_mul(o.yz)),
            zw: a.xz.spec_mul(o.xw).spec_neg().spec_add(a.xw.spec_mul(o.xz)).spec_add(
                a.yz.spec_mul(o.wy),
            ).spec_sub(a.wy.spec_mul(o.yz)),
        };
        Rotor4::spec_normalized_parts(
            self.c.spec_mul(other.c).spec_sub(a.xy.spec_mul(o.xy)).spec_sub(a.xz.spec_mul(o.xz))
                .spec_sub(a.xw.spec_mul(o.xw)).spec_sub(a.yz.spec_mul(o.yz)).spec_sub(
                a.wy.spec_mul(o.wy),
            ).spec_sub(a.zw.spec_mul(o.zw)).spec_add(self.xyzw.spec_mul(other.xyzw)),
            a_scalarquadvec_b_bivec.spec_add(b_scalarquadvec_a_bivec).spec_add(cross),
            self.c.spec_mul(other.xyzw).spec_add(a.xy.spec_mul(o.zw)).spec_add(
                a.xz.spec_mul(o.wy),
            ).spec_add(a.xw.spec_mul(o.yz)).spec_add(a.yz.spec_mul(o.xw)).spec_add(
                a.wy.spec_mul(o.xz),
            ).spec_add(a.zw.spec_mul(o.xy)).spec_add(self.xyzw.spec_mul(other.c)),
        )
    }

    fn compose(&self, other: Rotor4<S>) -> (r: Rotor4<S>) {
        let a_scalarquadvec_b_bivec = ScalarPlusQuadvec4 { c: self.c, xyzw: self.xyzw }.mul(
            other.bivec,
        );
        let b_scalarquadvec_a_bivec = ScalarPlusQuadvec4 { c: other.c, xyzw: other.xyzw }.mul(
            self.bivec,
        );
        let a = self.bivec;
        let o = other.bivec;
        let cross = Bivec4 {
            xy: a.xz.mul(o.yz).neg().add(a.xw.mul(o.wy)).add(a.yz.mul(o.xz)).sub(a.wy.mul(o.xw)),
            xz: a.xy.mul(o.yz).sub(a.xw.mul(o.zw)).sub(a.yz.mul(o.xy)).add(a.zw.mul(o.xw)),
            xw: a.xy.mul(o.wy).neg().add(a.xz.mul(o.zw)).add(a.wy.mul(o.xy)).sub(a.zw.mul(o.xz)),
            yz: a.xy.mul(o.xz).neg().add(a.xz.mul(o.xy)).add(a.wy.mul(o.zw)).sub(a.zw.mul(o.wy)),
            wy: a.xy.mul(o.xw).sub(a.xw.mul(o.xy)).sub(a.yz.mul(o.zw)).add(a.zw.mul(o.yz)),
            zw: a.xz.mul(o.xw).neg().add(a.xw.mul(o.xz)).add(a.yz.mul(o.wy)).sub(a.wy.mul(o.yz)),
        };
        Rotor4 {
            c: self.c.mul(other.c).sub(a.xy.mul(o.xy)).sub(a.xz.mul(o.xz)).sub(a.xw.mul(o.xw))
                .sub(a.yz.mul(o.yz)).sub(a.wy.mul(o.wy)).sub(a.zw.mul(o.zw)).add(
                self.xyzw.mul(other.xyzw),
            ),
            bivec: a_scalarquadvec_b_bivec.add(b_scalarquadvec_a_bivec).add(cross),
            xyzw: self.c.mul(other.xyzw).add(a.xy.mul(o.zw)).add(a.xz.mul(o.wy)).add(
                a.xw.mul(o.yz),
            ).add(a.yz.mul(o.xw)).add(a.wy.mul(o.xz)).add(a.zw.mul(o.xy)).add(
                self.xyzw.mul(other.c),
            ),
        }.normalized()
    }
}

impl<S: Scalar> Inverse for Rotor4<S> {
    type Inverted = Rotor4<S>;

    /// The inverse of a unit rotor is its reverse: the bivector negated, the
    /// scalar and quadvector kept.
    closed spec fn spec_inverse(&self) -> Rotor4<S> {
        Rotor4 { c: self.c, bivec: self.bivec.spec_neg(), xyzw: self.xyzw }
    }

    fn inverse(&self) -> (r: Rotor4<S>)
        ensures
            r.spec_c() == self.spec_c(),
            r.spec_bivec() == self.spec_bivec().spec_neg(),
            r.spec_xyzw() == self.spec_xyzw(),
    {
        Rotor4 { c: self.c, xyzw: self.xyzw, bivec: self.bivec.neg() }
    }
}

impl<S: Scalar> InterpolateWith<S> for Rotor4<S> {
    /// Spherical interpolation: compose with the `fraction` power of the
    /// difference rotor `self`-inverse composed with `other`.
    open spec fn spec_interpolate_with(&self, other: Rotor4<S>, fraction: S) -> Rotor4<S> {
        self.spec_compose(self.spec_inverse().spec_compose(other).spec_pow(fraction))
    }

    fn interpolate_with(&self, other: Rotor4<S>, fraction: S) -> (r: Rotor4<S>) {
        self.compose(self.inverse().compose(other).pow(fraction))
    }
}

/// The result of [`Rotor4::log`]; all bivectors in it are normalized.
#[derive(Clone, Copy, Debug)]
pub enum RotorLog4<S> {
    /// A simple rotation in the plane of a bivector:
    /// `R = exp(angle * bivec)`.
    Simple { bivec: SimpleBivec4<S>, angle: S },
    /// A double rotation: two independent rotations at the same time.
    /// `R = exp(angle1 * bivec1 + angle2 * bivec2)
    ///    = exp(angle1 * bivec1) * exp(angle2 * bivec2)`,
    /// and the two planes commute: they are orthogonal.
    DoubleRotation { bivec1: SimpleBivec4<S>, angle1: S, bivec2: SimpleBivec4<S>, angle2: S },
}

impl<S: Scalar> RotorLog4<S> {
    /// The logarithm with each angle scaled, the planes unchanged.
    pub open spec fn spec_scaled(self, scale: S) -> RotorLog4<S> {
        match self {
            RotorLog4::Simple { bivec, angle } => RotorLog4::Simple {
                bivec,
                angle: angle.spec_mul(scale),
            },
            RotorLog4::DoubleRotation { bivec1, angle1, bivec2, angle2 } => {
                RotorLog4::DoubleRotation {
                    bivec1,
                    angle1: scale.spec_mul(angle1),
                    bivec2,
                    angle2: scale.spec_mul(angle2),
                }
            },
        }
    }

    /// Scales every angle of this polar representation.
    pub fn scaled(&self, scale: S) -> (r: RotorLog4<S>)
        ensures
            r == self.spec_scaled(scale),
    {
        match self {
            RotorLog4::Simple { bivec, angle } => RotorLog4::Simple {
                bivec: *bivec,
                angle: angle.mul(scale),
            },
            RotorLog4::DoubleRotation { bivec1, angle1, bivec2, angle2 } => {
                RotorLog4::DoubleRotation {
                    bivec1: *bivec1,
                    angle1: scale.mul(*angle1),
                    bivec2: *bivec2,
                    angle2: scale.mul(*angle2),
                }
            },
        }
    }

    /// The rotor this polar representation exponentiates to, renormalized:
    /// the simple case is the cosine plus sine form, the double case
    /// combines the two angles' cosines and sines, the quadvector carrying
    /// the product of the sines.
    pub closed spec fn spec_exp(self) -> Rotor4<S> {
        match self {
            RotorLog4::Simple { bivec, angle } => Rotor4::spec_normalized_parts(
                angle.spec_cos(),
                bivec.spec_bivec().spec_scaled(angle.spec_sin()),
                S::spec_zero(),
            ),
            RotorLog4::DoubleRotation { bivec1, angle1, bivec2, angle2 } => {
                Rotor4::spec_normalized_parts(
                    angle1.spec_cos().spec_mul(angle2.spec_cos()),
                    bivec1.spec_bivec().spec_scaled(angle1.spec_sin().spec_mul(angle2.spec_cos()))
                        .spec_add(
                        bivec2.spec_bivec().spec_scaled(angle1.spec_cos().spec_mul(angle2.spec_sin())),
                    ),
                    angle1.spec_sin().spec_mul(angle2.spec_sin()),
                )
            },
        }
    }

    /// Exponentiates this polar representation back into a rotor.
    pub fn exp(&self) -> (r: Rotor4<S>)
        ensures
            r == self.spec_exp(),
    {
        match self {
            RotorLog4::Simple { bivec, angle } => Rotor4 {
                c: angle.cos(),
                bivec: bivec.scaled(angle.sin()).bivec(),
                xyzw: S::zero(),
            },
            RotorLog4::DoubleRotation { bivec1, angle1, bivec2, angle2 } => {
                let sin_angle1 = angle1.sin();
                let cos_angle1 = angle1.cos();
                let sin_angle2 = angle2.sin();
                let cos_angle2 = angle2.cos();
                Rotor4 {
                    c: cos_angle1.mul(cos_angle2),
                    bivec: bivec1.scaled(sin_angle1.mul(cos_angle2)).add(
                        bivec2.scaled(cos_angle1.mul(sin_angle2)),
                    ),
                    xyzw: sin_angle1.mul(sin_angle2),
                }
            },
        }.normalized()
    }

    /// The bivector this logarithm sums to: each plane scaled by its angle.
    pub open spec fn spec_to_bivec(self) -> Bivec4<S> {
        match self {
            RotorLog4::Simple { bivec, angle } => bivec.spec_bivec().spec_scaled(angle),
            RotorLog4::DoubleRotation { bivec1, angle1, bivec2, angle2 } => bivec1.spec_bivec()
                .spec_scaled(angle1).spec_add(bivec2.spec_bivec().spec_scaled(angle2)),
        }
    }

    /// Collapses this polar representation into the single bivector whose
    /// exponential the rotor is.
    pub fn to_bivec(&self) -> (r: Bivec4<S>)
        ensures
            r == self.spec_to_bivec(),
    {
        match self {
            RotorLog4::Simple { bivec, angle } => bivec.scaled(*angle).bivec(),
            RotorLog4::DoubleRotation { bivec1, angle1, bivec2, angle2 } => bivec1.scaled(
                *angle1,
            ).add(bivec2.scaled(*angle2)),
        }
    }
}

} // verus!
