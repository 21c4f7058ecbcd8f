//! The componentwise algebra of the two representations, as named methods:
//! addition, subtraction, negation, multiplication and division, with the
//! scalar variants in both operand orders and the in-place variants of
//! every binary operation.
//!
//! Addition and subtraction of a scalar touch the real coordinate only;
//! multiplication and division by a scalar scale both coordinates. The
//! in-place variants are each defined as `self = self op rhs`.

use crate::complex::Complex;
use crate::polar::ComplexPolar;
use crate::scalar::Elementary;
use crate::scalar::Scalar;
use vstd::prelude::*;

verus! {

impl<T: Scalar> Complex<T> {
    /// Componentwise sum of two complex values.
    pub fn add(self, rhs: Complex<T>) -> (r: Self)
        ensures
            r == self.spec_add(rhs),
    {
        Self::new(self.real.add(rhs.real), self.imag.add(rhs.imag))
    }

    /// Adds a scalar to the real coordinate only.
    pub fn add_scalar(self, rhs: T) -> (r: Self)
        ensures
            r == self.spec_add_scalar(rhs),
    {
        Self::new(self.real.add(rhs), self.imag)
    }

    /// A scalar plus a complex value.
    pub fn scalar_add(lhs: T, rhs: Complex<T>) -> (r: Self)
        ensures
            r == Self::spec_scalar_add(lhs, rhs),
    {
        Self::new(lhs.add(rhs.real), rhs.imag)
    }

    /// Componentwise difference of two complex values.
    pub fn sub(self, rhs: Complex<T>) -> (r: Self)
        ensures
            r == self.spec_sub(rhs),
    {
        Self::new(self.real.sub(rhs.real), self.imag.sub(rhs.imag))
    }

    /// Subtracts a scalar from the real coordinate only.
    pub fn sub_scalar(self, rhs: T) -> (r: Self)
        ensures
            r == self.spec_sub_scalar(rhs),
    {
        Self::new(self.real.sub(rhs), self.imag)
    }

    /// A scalar minus a complex value.
    pub fn scalar_sub(lhs: T, rhs: Complex<T>) -> (r: Self)
        ensures
            r == Self::spec_scalar_sub(lhs, rhs),
    {
        Self::new(lhs.sub(rhs.real), rhs.imag.neg())
    }

    /// Componentwise negation.
    pub fn neg(self) -> (r: Self)
        ensures
            r == self.spec_neg(),
    {
        Self::new(self.real.neg(), self.imag.neg())
    }

    /// The field product `(ac - bd) + (ad + bc)i`.
    pub fn mul(self, rhs: Complex<T>) -> (r: Self)
        ensures
            r == self.spec_mul(rhs),
    {
        Self::new(
            self.real.mul(rhs.real).sub(self.imag.mul(rhs.imag)),
            self.real.mul(rhs.imag).add(self.imag.mul(rhs.real)),
        )
    }

    /// Scales both coordinates by a scalar.
    pub fn mul_scalar(self, rhs: T) -> (r: Self)
        ensures
            r == self.spec_mul_scalar(rhs),
    {
        Self::new(self.real.mul(rhs), self.imag.mul(rhs))
    }

    /// A scalar times a complex value.
    pub fn scalar_mul(lhs: T, rhs: Complex<T>) -> (r: Self)
        ensures
            r == Self::spec_scalar_mul(lhs, rhs),
    {
        Self::new(rhs.real.mul(lhs), rhs.imag.mul(lhs))
    }

    /// Divides both coordinates by a scalar.
    pub fn div_scalar(self, rhs: T) -> (r: Self)
        ensures
            r == self.spec_div_scalar(rhs),
    {
        Self::new(self.real.div(rhs), self.imag.div(rhs))
    }

    /// Division: multiplies by the divisor's inverse.
    pub fn div(self, rhs: Complex<T>) -> (r: Self)
        ensures
            r == self.spec_div(rhs),
    {
        let rhsinv = rhs.inv();
        Self::new(
            self.real.mul(rhsinv.real).sub(self.imag.mul(rhsinv.imag)),
            self.real.mul(rhsinv.imag).add(self.imag.mul(rhsinv.real)),
        )
    }

    /// A scalar divided by a complex value: the divisor's inverse scaled by
    /// the scalar.
    pub fn scalar_div(lhs: T, rhs: Complex<T>) -> (r: Self)
        ensures
            r == Self::spec_scalar_div(lhs, rhs),
    {
        Self::scalar_mul(lhs, rhs.conj().div_scalar(rhs.square_abs()))
    }

    /// In-place componentwise sum.
    pub fn add_assign(&mut self, rhs: Complex<T>)
        ensures
            *final(self) == old(self).spec_add(rhs),
    {
        *self = (*self).add(rhs);
    }

    /// In-place sum with a scalar.
    pub fn add_assign_scalar(&mut self, rhs: T)
        ensures
            *final(self) == old(self).spec_add_scalar(rhs),
    {
        *self = (*self).add_scalar(rhs);
    }

    /// In-place componentwise difference.
    pub fn sub_assign(&mut self, rhs: Complex<T>)
        ensures
            *final(self) == old(self).spec_sub(rhs),
    {
        *self = (*self).sub(rhs);
    }

    /// In-place difference with a scalar.
    pub fn sub_assign_scalar(&mut self, rhs: T)
        ensures
            *final(self) == old(self).spec_sub_scalar(rhs),
    {
        *self = (*self).sub_scalar(rhs);
    }

    /// In-place product.
    pub fn mul_assign(&mut self, rhs: Complex<T>)
        ensures
            *final(self) == old(self).spec_mul(rhs),
    {
        *self = (*self).mul(rhs);
    }

    /// In-place scaling by a scalar.
    pub fn mul_assign_scalar(&mut self, rhs: T)
        ensures
            *final(self) == old(self).spec_mul_scalar(rhs),
    {
        *self = (*self).mul_scalar(rhs);
    }

    /// In-place division.
    pub fn div_assign(&mut self, rhs: Complex<T>)
        ensures
            *final(self) == old(self).spec_div(rhs),
    {
        *self = (*self).div(rhs);
    }

    /// In-place division by a scalar.
    pub fn div_assign_scalar(&mut self, rhs: T)
        ensures
            *final(self) == old(self).spec_div_scalar(rhs),
    {
        *self = (*self).div_scalar(rhs);
    }
}

impl<T: Elementary> ComplexPolar<T> {
    /// Negation: the radius negated, the sign resolved into the angle by
    /// the constructor's canonicalization.
    pub fn neg(self) -> (r: Self)
        ensures
            r == self.spec_neg(),
    {
        Self::new(self.radius.neg(), self.angle)
    }

    /// Product of two polar values: radii multiplied, angles added.
    pub fn mul(self, rhs: ComplexPolar<T>) -> (r: Self)
        ensures
            r == self.spec_mul(rhs),
    {
        Self::new(self.radius.mul(rhs.radius), self.angle.add(rhs.angle))
    }

    /// Scales the radius by a scalar.
    pub fn mul_scalar(self, rhs: T) -> (r: Self)
        ensures
            r == self.spec_mul_scalar(rhs),
    {
        Self::new(self.radius.mul(rhs), self.angle)
    }

    /// A scalar times a polar value.
    pub fn scalar_mul(lhs: T, rhs: ComplexPolar<T>) -> (r: Self)
        ensures
            r == Self::spec_scalar_mul(lhs, rhs),
    {
        Self::new(rhs.radius.mul(lhs), rhs.angle)
    }

    /// Quotient of two polar values: radii divided, angles subtracted.
    pub fn div(self, rhs: ComplexPolar<T>) -> (r: Self)
        ensures
            r == self.spec_div(rhs),
    {
        Self::new(self.radius.div(rhs.radius), self.angle.sub(rhs.angle))
    }

    /// Divides the radius by a scalar.
    pub fn div_scalar(self, rhs: T) -> (r: Self)
        ensures
            r == self.spec_div_scalar(rhs),
    {
        Self::new(self.radius.div(rhs), self.angle)
    }

    /// A scalar divisor applied to a polar value's radius, the angle kept.
    pub fn scalar_div(lhs: T, rhs: ComplexPolar<T>) -> (r: Self)
        ensures
            r == Self::spec_scalar_div(lhs, rhs),
    {
        Self::new(rhs.radius.div(lhs), rhs.angle)
    }

    /// In-place product.
    pub fn mul_assign(&mut self, rhs: ComplexPolar<T>)
        ensures
            *final(self) == old(self).spec_mul(rhs),
    {
        *self = (*self).mul(rhs);
    }

    /// In-place scaling of the radius.
    pub fn mul_assign_scalar(&mut self, rhs: T)
        ensures
            *final(self) == old(self).spec_mul_scalar(rhs),
    {
        *self = (*self).mul_scalar(rhs);
    }

    /// In-place quotient.
    pub fn div_assign(&mut self, rhs: ComplexPolar<T>)
        ensures
            *final(self) == old(self).spec_div(rhs),
    {
        *self = (*self).div(rhs);
    }

    /// In-place division of the radius.
    pub fn div_assign_scalar(&mut self, rhs: T)
        ensures
            *final(self) == old(self).spec_div_scalar(rhs),
    {
        *self = (*self).div_scalar(rhs);
    }
}

} // verus!
