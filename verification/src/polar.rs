//! The polar complex value: a radius and an angle, representing
//! `radius * e^(i * angle)`.
//!
//! The constructor canonicalizes: a negative input radius is replaced by
//! its negation and the angle shifted by pi, and the angle is then reduced
//! by the scalar remainder against two pi, which for a floating-point
//! scalar leaves it in the open interval from minus two pi to two pi, with
//! the sign of the shifted input angle. Two polar values that differ only
//! by a whole turn are mathematically equal but not componentwise equal;
//! equality of independently constructed angles is not meaningful without
//! normalizing first.
//!
//! The closed forms on `(radius, angle)` — square root, inverse, real
//! power, and the products and quotients of the operator layer — are the
//! reason this representation exists; the transcendental family delegates
//! to the rectangular form and back.

use crate::complex::Complex;
use crate::scalar::Elementary;
use crate::scalar::Scalar;
use vstd::prelude::*;

verus! {

/// A complex number `radius * e^(i * angle)` in polar form.
#[derive(Debug, PartialEq, Clone, Copy)]
pub struct ComplexPolar<T: Scalar> {
    /// The radius, canonicalized by the constructor so that it never tests
    /// as strictly negative.
    pub radius: T,
    /// The angle in radians, reduced by the constructor modulo two pi.
    pub angle: T,
}

impl<T: Elementary> ComplexPolar<T> {
    /// The canonicalization the constructor applies: the radius' negation
    /// and a half-turn shift when the input radius tests negative, then
    /// reduction of the angle by the remainder against two pi.
    pub open spec fn spec_new(rad: T, ang: T) -> ComplexPolar<T> {
        let flip = rad.spec_is_neg();
        let radius = if flip {
            rad.spec_neg()
        } else {
            rad
        };
        let shifted = if flip {
            ang.spec_add(T::spec_pi())
        } else {
            ang
        };
        ComplexPolar {
            radius,
            angle: shifted.spec_rem(T::spec_two().spec_mul(T::spec_pi())),
        }
    }

    /// The rectangular real coordinate, `radius * cos(angle)`.
    pub open spec fn spec_real(self) -> T {
        self.radius.spec_mul(self.angle.spec_cos())
    }

    /// The rectangular imaginary coordinate, `radius * sin(angle)`.
    pub open spec fn spec_imag(self) -> T {
        self.radius.spec_mul(self.angle.spec_sin())
    }

    /// The rectangular form of this value.
    pub open spec fn spec_unpolarize(self) -> Complex<T> {
        Complex { real: self.spec_real(), imag: self.spec_imag() }
    }

    /// Square root: the radius' square root, half the angle.
    pub open spec fn spec_sqrt(self) -> ComplexPolar<T> {
        ComplexPolar::spec_new(self.radius.spec_sqrt(), self.angle.spec_div(T::spec_two()))
    }

    /// Inverse: the radius' reciprocal, the angle negated.
    pub open spec fn spec_inv(self) -> ComplexPolar<T> {
        ComplexPolar::spec_new(T::spec_one().spec_div(self.radius), self.angle.spec_neg())
    }

    /// Real power: the radius raised to the exponent, the angle scaled by
    /// it.
    pub open spec fn spec_powf(self, exponent: T) -> ComplexPolar<T> {
        ComplexPolar::spec_new(self.radius.spec_powf(exponent), self.angle.spec_mul(exponent))
    }

    /// Complex power, through the rectangular form.
    pub open spec fn spec_powc(self, exponent: Complex<T>) -> ComplexPolar<T> {
        self.spec_unpolarize().spec_powc(exponent).spec_polarize()
    }

    /// Complex power with a polar exponent, through the rectangular form.
    pub open spec fn spec_powcp(self, exponent: ComplexPolar<T>) -> ComplexPolar<T> {
        self.spec_unpolarize().spec_powc(exponent.spec_unpolarize()).spec_polarize()
    }

    /// Exponential, through the rectangular form.
    pub open spec fn spec_exp(self) -> ComplexPolar<T> {
        self.spec_unpolarize().spec_exp().spec_polarize()
    }

    /// Natural logarithm, through the rectangular form.
    pub open spec fn spec_ln(self) -> ComplexPolar<T> {
        self.spec_unpolarize().spec_ln().spec_polarize()
    }

    /// Logarithm base ten, through the rectangular form.
    pub open spec fn spec_log(self) -> ComplexPolar<T> {
        self.spec_unpolarize().spec_log().spec_polarize()
    }

    /// Logarithm in a given base, through the rectangular form.
    pub open spec fn spec_logn(self, base: T) -> ComplexPolar<T> {
        self.spec_unpolarize().spec_logn(base).spec_polarize()
    }

    /// Negation: the radius negated, resolved by the constructor's
    /// sign-into-angle canonicalization.
    pub open spec fn spec_neg(self) -> ComplexPolar<T> {
        ComplexPolar::spec_new(self.radius.spec_neg(), self.angle)
    }

    /// Product: radii multiplied, angles added.
    pub open spec fn spec_mul(self, rhs: ComplexPolar<T>) -> ComplexPolar<T> {
        ComplexPolar::spec_new(self.radius.spec_mul(rhs.radius), self.angle.spec_add(rhs.angle))
    }

    /// Quotient: radii divided, angles subtracted.
    pub open spec fn spec_div(self, rhs: ComplexPolar<T>) -> ComplexPolar<T> {
        ComplexPolar::spec_new(self.radius.spec_div(rhs.radius), self.angle.spec_sub(rhs.angle))
    }

    /// The radius scaled by a scalar, the angle untouched before
    /// canonicalization.
    pub open spec fn spec_mul_scalar(self, rhs: T) -> ComplexPolar<T> {
        ComplexPolar::spec_new(self.radius.spec_mul(rhs), self.angle)
    }

    /// The radius divided by a scalar, the angle untouched before
    /// canonicalization.
    pub open spec fn spec_div_scalar(self, rhs: T) -> ComplexPolar<T> {
        ComplexPolar::spec_new(self.radius.spec_div(rhs), self.angle)
    }

    /// A scalar times a polar value: the radius scaled.
    pub open spec fn spec_scalar_mul(lhs: T, rhs: ComplexPolar<T>) -> ComplexPolar<T> {
        ComplexPolar::spec_new(rhs.radius.spec_mul(lhs), rhs.angle)
    }

    /// A scalar divisor applied to a polar value's radius, the angle kept.
    pub open spec fn spec_scalar_div(lhs: T, rhs: ComplexPolar<T>) -> ComplexPolar<T> {
        ComplexPolar::spec_new(rhs.radius.spec_div(lhs), rhs.angle)
    }

    /// Creates a new polar value, canonicalizing as the type's description
    /// says: the stored radius never tests as strictly negative.
    pub fn new(rad: T, ang: T) -> (r: Self)
        ensures
            r == Self::spec_new(rad, ang),
            !r.radius.spec_is_neg(),
    {
        proof {
            T::law_zero();
        }
        let flip = rad.is_neg();
        let radius = if flip {
            rad.neg()
        } else {
            rad
        };
        let shifted = if flip {
            ang.add(T::pi())
        } else {
            ang
        };
        ComplexPolar { radius, angle: shifted.rem(T::two().mul(T::pi())) }
    }

    /// Returns the rectangular real coordinate.
    pub fn re(self) -> (r: T)
        ensures
            r == self.spec_real(),
    {
        self.radius.mul(self.angle.cos())
    }

    /// Returns the rectangular imaginary coordinate.
    pub fn imag(self) -> (r: T)
        ensures
            r == self.spec_imag(),
    {
        self.radius.mul(self.angle.sin())
    }

    /// Returns the rectangular form: the designated inverse of
    /// [`Complex::polarize`].
    pub fn unpolarize(self) -> (r: Complex<T>)
        ensures
            r == self.spec_unpolarize(),
    {
        Complex::new(self.re(), self.imag())
    }

    /// Returns the square root, directly on `(radius, angle)`.
    pub fn sqrt(self) -> (r: Self)
        ensures
            r == self.spec_sqrt(),
    {
        Self::new(self.radius.sqrt(), self.angle.div(T::two()))
    }

    /// Returns the multiplicative inverse, directly on `(radius, angle)`.
    pub fn inv(self) -> (r: Self)
        ensures
            r == self.spec_inv(),
    {
        Self::new(T::one().div(self.radius), self.angle.neg())
    }

    /// Returns this value raised to a real power, directly on
    /// `(radius, angle)`.
    pub fn powf(self, exponent: T) -> (r: Self)
        ensures
            r == self.spec_powf(exponent),
    {
        Self::new(self.radius.powf(exponent), self.angle.mul(exponent))
    }

    /// Returns this value raised to a complex power, through the
    /// rectangular form.
    pub fn powc(self, exponent: Complex<T>) -> (r: Self)
        ensures
            r == self.spec_powc(exponent),
    {
        self.unpolarize().powc(exponent).polarize()
    }

    /// Returns this value raised to a polar complex power, through the
    /// rectangular form.
    pub fn powcp(self, exponent: ComplexPolar<T>) -> (r: Self)
        ensures
            r == self.spec_powcp(exponent),
    {
        self.unpolarize().powc(exponent.unpolarize()).polarize()
    }

    /// Returns e raised to this value, through the rectangular form.
    pub fn exp(self) -> (r: Self)
        ensures
            r == self.spec_exp(),
    {
        self.unpolarize().exp().polarize()
    }

    /// Returns the natural logarithm, through the rectangular form.
    pub fn ln(self) -> (r: Self)
        ensures
            r == self.spec_ln(),
    {
        self.unpolarize().ln().polarize()
    }

    /// Returns the logarithm base ten, through the rectangular form.
    pub fn log(self) -> (r: Self)
        ensures
            r == self.spec_log(),
    {
        self.unpolarize().log().polarize()
    }

    /// Returns the logarithm in the given base, through the rectangular
    /// form.
    pub fn logn(self, base: T) -> (r: Self)
        ensures
            r == self.spec_logn(base),
    {
        self.unpolarize().logn(base).polarize()
    }
}

} // verus!
