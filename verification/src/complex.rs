//! The rectangular complex value: a real and an imaginary coordinate.
//!
//! Every operation returns a new value and is total over the coordinate
//! domain; exceptional arithmetic (division by a zero-magnitude value,
//! logarithm of zero) is resolved by the scalar arithmetic itself, never by
//! an error channel. Each executable method's contract pins its result to a
//! specification-level expression over the scalar operations of
//! [`crate::scalar::Scalar`] and [`crate::scalar::Elementary`].

use crate::polar::ComplexPolar;
use crate::scalar::Elementary;
use crate::scalar::Scalar;
use vstd::prelude::*;

verus! {

/// A complex number `real + imag * i` in rectangular form.
///
/// The coordinates are stored verbatim: the type neither normalizes nor
/// validates them.
#[derive(Debug, PartialEq, Clone, Copy)]
pub struct Complex<T: Scalar> {
    /// The real coordinate.
    pub real: T,
    /// The imaginary coordinate.
    pub imag: T,
}

/// A short alias for [`Complex`].
pub type CC<T> = Complex<T>;

impl<T: Scalar> Complex<T> {
    /// The multiplicative one, `1 + 0i`.
    pub open spec fn spec_one() -> Complex<T> {
        Complex { real: T::spec_one(), imag: T::spec_zero() }
    }

    /// The imaginary unit, `0 + 1i`.
    pub open spec fn spec_i() -> Complex<T> {
        Complex { real: T::spec_zero(), imag: T::spec_one() }
    }

    /// The conjugate: the imaginary coordinate negated.
    pub open spec fn spec_conj(self) -> Complex<T> {
        Complex { real: self.real, imag: self.imag.spec_neg() }
    }

    /// The squared magnitude `real * real + imag * imag`.
    pub open spec fn spec_square_abs(self) -> T {
        self.real.spec_mul(self.real).spec_add(self.imag.spec_mul(self.imag))
    }

    /// Componentwise sum.
    pub open spec fn spec_add(self, rhs: Complex<T>) -> Complex<T> {
        Complex { real: self.real.spec_add(rhs.real), imag: self.imag.spec_add(rhs.imag) }
    }

    /// Componentwise difference.
    pub open spec fn spec_sub(self, rhs: Complex<T>) -> Complex<T> {
        Complex { real: self.real.spec_sub(rhs.real), imag: self.imag.spec_sub(rhs.imag) }
    }

    /// Componentwise negation.
    pub open spec fn spec_neg(self) -> Complex<T> {
        Complex { real: self.real.spec_neg(), imag: self.imag.spec_neg() }
    }

    /// The field product `(ac - bd) + (ad + bc)i`.
    pub open spec fn spec_mul(self, rhs: Complex<T>) -> Complex<T> {
        Complex {
            real: self.real.spec_mul(rhs.real).spec_sub(self.imag.spec_mul(rhs.imag)),
            imag: self.real.spec_mul(rhs.imag).spec_add(self.imag.spec_mul(rhs.real)),
        }
    }

    /// A scalar added to the real coordinate only.
    pub open spec fn spec_add_scalar(self, rhs: T) -> Complex<T> {
        Complex { real: self.real.spec_add(rhs), imag: self.imag }
    }

    /// A scalar subtracted from the real coordinate only.
    pub open spec fn spec_sub_scalar(self, rhs: T) -> Complex<T> {
        Complex { real: self.real.spec_sub(rhs), imag: self.imag }
    }

    /// Both coordinates scaled by a scalar.
    pub open spec fn spec_mul_scalar(self, rhs: T) -> Complex<T> {
        Complex { real: self.real.spec_mul(rhs), imag: self.imag.spec_mul(rhs) }
    }

    /// Both coordinates divided by a scalar.
    pub open spec fn spec_div_scalar(self, rhs: T) -> Complex<T> {
        Complex { real: self.real.spec_div(rhs), imag: self.imag.spec_div(rhs) }
    }

    /// A scalar plus a complex value.
    pub open spec fn spec_scalar_add(lhs: T, rhs: Complex<T>) -> Complex<T> {
        Complex { real: lhs.spec_add(rhs.real), imag: rhs.imag }
    }

    /// A scalar minus a complex value.
    pub open spec fn spec_scalar_sub(lhs: T, rhs: Complex<T>) -> Complex<T> {
        Complex { real: lhs.spec_sub(rhs.real), imag: rhs.imag.spec_neg() }
    }

    /// A scalar times a complex value.
    pub open spec fn spec_scalar_mul(lhs: T, rhs: Complex<T>) -> Complex<T> {
        Complex { real: rhs.real.spec_mul(lhs), imag: rhs.imag.spec_mul(lhs) }
    }

    /// A scalar divided by a complex value: the divisor's inverse scaled by
    /// the scalar.
    pub open spec fn spec_scalar_div(lhs: T, rhs: Complex<T>) -> Complex<T> {
        Complex::spec_scalar_mul(lhs, rhs.spec_conj().spec_div_scalar(rhs.spec_square_abs()))
    }

    /// The multiplicative inverse: the conjugate divided by the squared
    /// magnitude. At the zero value the scalar division itself decides the
    /// outcome (IEEE-754 arithmetic propagates an infinity or NaN).
    pub open spec fn spec_inv(self) -> Complex<T> {
        self.spec_conj().spec_div_scalar(self.spec_square_abs())
    }

    /// Division: multiplication by the divisor's inverse.
    pub open spec fn spec_div(self, rhs: Complex<T>) -> Complex<T> {
        self.spec_mul(rhs.spec_inv())
    }

    /// The integer power by squaring, the recurrence the executable
    /// exponentiation follows: even exponents square the base and halve the
    /// exponent, odd exponents peel one factor off first.
    pub open spec fn spec_powi(self, n: nat) -> Complex<T>
        decreases n,
    {
        if n == 0 {
            Complex::spec_one()
        } else if n == 1 {
            self
        } else if n % 2 == 0 {
            self.spec_mul(self).spec_powi(n / 2)
        } else {
            self.spec_mul(self.spec_mul(self).spec_powi(((n - 1) / 2) as nat))
        }
    }

    /// Creates a new complex value; the coordinates are stored verbatim.
    pub fn new(re: T, im: T) -> (r: Self)
        ensures
            r == (Complex { real: re, imag: im }),
    {
        Complex { real: re, imag: im }
    }

    /// Returns the imaginary unit `i`.
    pub fn i() -> (r: Self)
        ensures
            r == Self::spec_i(),
    {
        Self::new(T::zero(), T::one())
    }

    /// Returns the real coordinate.
    pub fn re(self) -> (r: T)
        ensures
            r == self.real,
    {
        self.real
    }

    /// Returns the imaginary coordinate.
    pub fn imag(self) -> (r: T)
        ensures
            r == self.imag,
    {
        self.imag
    }

    /// Returns the conjugate.
    pub fn conj(self) -> (r: Self)
        ensures
            r == self.spec_conj(),
    {
        Self::new(self.real, self.imag.neg())
    }

    /// Returns the square of the absolute value.
    pub fn square_abs(self) -> (r: T)
        ensures
            r == self.spec_square_abs(),
    {
        self.real.mul(self.real).add(self.imag.mul(self.imag))
    }

    /// Returns the multiplicative inverse. A zero input is not rejected:
    /// the scalar division by the zero squared magnitude decides the
    /// outcome, as the contract's specification spells out.
    pub fn inv(self) -> (r: Self)
        ensures
            r == self.spec_inv(),
    {
        self.conj().div_scalar(self.square_abs())
    }

    /// Returns this value raised to an integer power, by exponentiation by
    /// squaring. A zero exponent yields `1 + 0i` whatever the base; a
    /// negative exponent raises to the corresponding positive power and
    /// inverts. The whole signed 64-bit exponent range is accepted.
    pub fn powi(self, exponent: i64) -> (r: Self)
        ensures
            exponent == 0 ==> r == Self::spec_one(),
            exponent >= 0 ==> r == self.spec_powi(exponent as nat),
            exponent < 0 ==> r == self.spec_powi((-(exponent as int)) as nat).spec_inv(),
    {
        if exponent >= 0 {
            self.pow_mag(exponent as u64)
        } else {
            // The magnitude is taken without negating the exponent itself,
            // which the lowest 64-bit value would overflow.
            let m: u64 = ((-(exponent + 1)) as u64) + 1;
            assert(m as nat == -(exponent as int));
            self.pow_mag(m).inv()
        }
    }

    /// Exponentiation by squaring over the exponent's magnitude.
    fn pow_mag(self, e: u64) -> (r: Self)
        ensures
            r == self.spec_powi(e as nat),
        decreases e,
    {
        if e == 0 {
            Self::new(T::one(), T::zero())
        } else if e == 1 {
            self
        } else if e % 2 == 0 {
            self.mul(self).pow_mag(e / 2)
        } else {
            self.mul(self.mul(self).pow_mag((e - 1) / 2))
        }
    }
}

impl<T: Elementary> Complex<T> {
    /// The magnitude: the square root of the squared magnitude.
    pub open spec fn spec_abs(self) -> T {
        self.spec_square_abs().spec_sqrt()
    }

    /// The argument: zero when the magnitude tests as zero (the zero value
    /// has no angle, and the angle formula would divide zero by zero);
    /// otherwise the arc cosine of the real coordinate over the magnitude,
    /// signed by the imaginary coordinate's sign.
    pub open spec fn spec_arg(self) -> T {
        if self.spec_abs().spec_is_zero() {
            T::spec_zero()
        } else {
            self.imag.spec_signum().spec_mul(self.real.spec_div(self.spec_abs()).spec_acos())
        }
    }

    /// The principal square root, by the half-angle closed form; the
    /// imaginary coordinate's sign places the result in the right
    /// half-plane.
    pub open spec fn spec_sqrt(self) -> Complex<T> {
        Complex {
            real: self.real.spec_add(self.spec_abs()).spec_div(T::spec_two()).spec_sqrt(),
            imag: self.imag.spec_signum().spec_mul(
                self.real.spec_neg().spec_add(self.spec_abs()).spec_div(T::spec_two()).spec_sqrt(),
            ),
        }
    }

    /// A real power by De Moivre's formula: rotate by the argument scaled
    /// by the exponent, scale by the magnitude raised to the exponent.
    pub open spec fn spec_powf(self, exponent: T) -> Complex<T> {
        Complex {
            real: self.spec_arg().spec_mul(exponent).spec_cos(),
            imag: self.spec_arg().spec_mul(exponent).spec_sin(),
        }.spec_mul_scalar(self.spec_abs().spec_powf(exponent))
    }

    /// A complex power: the real power by the exponent's real coordinate,
    /// rotated by the exponent's imaginary coordinate driven through the
    /// logarithm.
    pub open spec fn spec_powc(self, exponent: Complex<T>) -> Complex<T> {
        self.spec_powf(exponent.real).spec_mul(
            self.spec_ln().spec_mul(Complex::spec_i()).spec_mul_scalar(exponent.imag).spec_exp(),
        )
    }

    /// The exponential: `e^real * (cos(imag) + i sin(imag))`.
    pub open spec fn spec_exp(self) -> Complex<T> {
        Complex {
            real: self.imag.spec_cos(),
            imag: self.imag.spec_sin(),
        }.spec_mul_scalar(self.real.spec_exp())
    }

    /// A real base raised to this value: `exp(self * ln(base))`, except
    /// that a zero base yields the zero value outright (the logarithm of
    /// zero times a zero coordinate would otherwise turn into NaN).
    pub open spec fn spec_expf(self, base: T) -> Complex<T> {
        if base.spec_is_zero() {
            Complex { real: T::spec_zero(), imag: T::spec_zero() }
        } else {
            self.spec_mul_scalar(base.spec_ln()).spec_exp()
        }
    }

    /// The natural logarithm of the magnitude, computed as half the
    /// logarithm of the squared magnitude; at the zero value the scalar
    /// logarithm's value at zero comes through unchanged by the halving.
    pub open spec fn spec_ln_abs(self) -> T {
        self.spec_square_abs().spec_ln().spec_div(T::spec_two())
    }

    /// The natural logarithm: magnitude's logarithm, argument.
    pub open spec fn spec_ln(self) -> Complex<T> {
        Complex { real: self.spec_ln_abs(), imag: self.spec_arg() }
    }

    /// The logarithm base ten.
    pub open spec fn spec_log(self) -> Complex<T> {
        self.spec_ln().spec_div_scalar(T::spec_ten().spec_ln())
    }

    /// The logarithm in a given base.
    pub open spec fn spec_logn(self, base: T) -> Complex<T> {
        self.spec_ln().spec_div_scalar(base.spec_ln())
    }

    /// The sine, by the angle-addition closed form.
    pub open spec fn spec_sin(self) -> Complex<T> {
        Complex {
            real: self.real.spec_sin().spec_mul(self.imag.spec_cosh()),
            imag: self.real.spec_cos().spec_mul(self.imag.spec_sinh()),
        }
    }

    /// The cosine, by the angle-addition closed form.
    pub open spec fn spec_cos(self) -> Complex<T> {
        Complex {
            real: self.real.spec_cos().spec_mul(self.imag.spec_cosh()),
            imag: self.real.spec_sin().spec_neg().spec_mul(self.imag.spec_sinh()),
        }
    }

    /// The tangent: sine over cosine.
    pub open spec fn spec_tan(self) -> Complex<T> {
        self.spec_sin().spec_div(self.spec_cos())
    }

    /// The cotangent: the tangent's inverse.
    pub open spec fn spec_cot(self) -> Complex<T> {
        self.spec_tan().spec_inv()
    }

    /// The secant: the cosine's inverse.
    pub open spec fn spec_sec(self) -> Complex<T> {
        self.spec_cos().spec_inv()
    }

    /// The cosecant: the sine's inverse.
    pub open spec fn spec_csc(self) -> Complex<T> {
        self.spec_sin().spec_inv()
    }

    /// The arc sine, by its logarithmic identity.
    pub open spec fn spec_arcsin(self) -> Complex<T> {
        Complex::spec_i().spec_neg().spec_mul(
            self.spec_powi(2).spec_neg().spec_add_scalar(T::spec_one()).spec_sqrt().spec_add(
                Complex::spec_i().spec_mul(self),
            ).spec_ln(),
        )
    }

    /// The arc cosine, by its logarithmic identity.
    pub open spec fn spec_arccos(self) -> Complex<T> {
        Complex::spec_i().spec_mul(
            self.spec_powi(2).spec_neg().spec_add_scalar(T::spec_one()).spec_sqrt().spec_div(
                Complex::spec_i(),
            ).spec_add(self).spec_ln(),
        )
    }

    /// The arc tangent, reduced to the arc sine.
    pub open spec fn spec_arctan(self) -> Complex<T> {
        self.spec_div(self.spec_powi(2).spec_add_scalar(T::spec_one()).spec_sqrt()).spec_arcsin()
    }

    /// The arc cotangent: the inverse's arc tangent.
    pub open spec fn spec_arccot(self) -> Complex<T> {
        self.spec_inv().spec_arctan()
    }

    /// The arc secant: the inverse's arc cosine.
    pub open spec fn spec_arcsec(self) -> Complex<T> {
        self.spec_inv().spec_arccos()
    }

    /// The arc cosecant: the inverse's arc sine.
    pub open spec fn spec_arccsc(self) -> Complex<T> {
        self.spec_inv().spec_arcsin()
    }

    /// The hyperbolic sine, by the closed form swapping the roles the
    /// sine's form gives the coordinates.
    pub open spec fn spec_sinh(self) -> Complex<T> {
        Complex {
            real: self.real.spec_sinh().spec_mul(self.imag.spec_cos()),
            imag: self.real.spec_cosh().spec_mul(self.imag.spec_sin()),
        }
    }

    /// The hyperbolic cosine, by the analogous closed form.
    pub open spec fn spec_cosh(self) -> Complex<T> {
        Complex {
            real: self.real.spec_cosh().spec_mul(self.imag.spec_cos()),
            imag: self.real.spec_sinh().spec_mul(self.imag.spec_sin()),
        }
    }

    /// The hyperbolic tangent: hyperbolic sine over hyperbolic cosine.
    pub open spec fn spec_tanh(self) -> Complex<T> {
        self.spec_sinh().spec_div(self.spec_cosh())
    }

    /// The hyperbolic cotangent: the hyperbolic tangent's inverse.
    pub open spec fn spec_coth(self) -> Complex<T> {
        self.spec_tanh().spec_inv()
    }

    /// The hyperbolic secant: the hyperbolic cosine's inverse.
    pub open spec fn spec_sech(self) -> Complex<T> {
        self.spec_cosh().spec_inv()
    }

    /// The hyperbolic cosecant: the hyperbolic sine's inverse.
    pub open spec fn spec_csch(self) -> Complex<T> {
        self.spec_sinh().spec_inv()
    }

    /// The hyperbolic arc sine, `ln(sqrt(z^2 + 1) + z)`.
    pub open spec fn spec_arcsinh(self) -> Complex<T> {
        self.spec_powi(2).spec_add_scalar(T::spec_one()).spec_sqrt().spec_add(self).spec_ln()
    }

    /// The hyperbolic arc cosine, `ln(sqrt(z^2 - 1) + z)`.
    pub open spec fn spec_arccosh(self) -> Complex<T> {
        self.spec_powi(2).spec_sub_scalar(T::spec_one()).spec_sqrt().spec_add(self).spec_ln()
    }

    /// The hyperbolic arc tangent, `ln((1 + z) / (1 - z)) / 2`.
    pub open spec fn spec_arctanh(self) -> Complex<T> {
        self.spec_add_scalar(T::spec_one()).spec_div(
            self.spec_neg().spec_add_scalar(T::spec_one()),
        ).spec_ln().spec_mul_scalar(T::spec_half())
    }

    /// The hyperbolic arc cotangent: the inverse's hyperbolic arc tangent.
    pub open spec fn spec_arccoth(self) -> Complex<T> {
        self.spec_inv().spec_arctanh()
    }

    /// The hyperbolic arc secant: the inverse's hyperbolic arc cosine.
    pub open spec fn spec_arcsech(self) -> Complex<T> {
        self.spec_inv().spec_arccosh()
    }

    /// The hyperbolic arc cosecant: the inverse's hyperbolic arc sine.
    pub open spec fn spec_arccsch(self) -> Complex<T> {
        self.spec_inv().spec_arcsinh()
    }

    /// The polar form: magnitude and argument, canonicalized by the polar
    /// constructor.
    pub open spec fn spec_polarize(self) -> ComplexPolar<T> {
        ComplexPolar::spec_new(self.spec_abs(), self.spec_arg())
    }

    /// Returns the absolute value.
    pub fn abs(self) -> (r: T)
        ensures
            r == self.spec_abs(),
    {
        self.square_abs().sqrt()
    }

    /// Returns the argument on the interval from minus pi to pi, with pi
    /// included; exactly zero for the exact-zero value.
    pub fn arg(self) -> (r: T)
        ensures
            r == self.spec_arg(),
    {
        if self.abs().is_zero() {
            T::zero()
        } else {
            self.imag.signum().mul(self.real.div(self.abs()).acos())
        }
    }

    /// Returns the principal square root.
    pub fn sqrt(self) -> (r: Self)
        ensures
            r == self.spec_sqrt(),
    {
        Self::new(
            self.real.add(self.abs()).div(T::two()).sqrt(),
            self.imag.signum().mul(self.real.neg().add(self.abs()).div(T::two()).sqrt()),
        )
    }

    /// Returns this value raised to a real power, by De Moivre's formula.
    pub fn powf(self, exponent: T) -> (r: Self)
        ensures
            r == self.spec_powf(exponent),
    {
        let arg_exponent = self.arg().mul(exponent);
        Self::new(arg_exponent.cos(), arg_exponent.sin()).mul_scalar(self.abs().powf(exponent))
    }

    /// Returns this value raised to a complex power.
    pub fn powc(self, exponent: Self) -> (r: Self)
        ensures
            r == self.spec_powc(exponent),
    {
        self.powf(exponent.real).mul(self.ln().mul(Self::i()).mul_scalar(exponent.imag).exp())
    }

    /// Returns e raised to this value.
    pub fn exp(self) -> (r: Self)
        ensures
            r == self.spec_exp(),
    {
        Self::new(self.imag.cos(), self.imag.sin()).mul_scalar(self.real.exp())
    }

    /// Returns the given real base raised to this value; a zero base gives
    /// the zero value outright.
    pub fn expf(self, base: T) -> (r: Self)
        ensures
            r == self.spec_expf(base),
    {
        if base.is_zero() {
            Self::new(T::zero(), T::zero())
        } else {
            self.mul_scalar(base.ln()).exp()
        }
    }

    /// Returns the natural logarithm of the absolute value; a zero value
    /// yields what the scalar logarithm yields at zero.
    pub fn ln_abs(self) -> (r: T)
        ensures
            r == self.spec_ln_abs(),
    {
        self.square_abs().ln().div(T::two())
    }

    /// Returns the natural logarithm.
    pub fn ln(self) -> (r: Self)
        ensures
            r == self.spec_ln(),
    {
        Self::new(self.ln_abs(), self.arg())
    }

    /// Returns the logarithm base ten.
    pub fn log(self) -> (r: Self)
        ensures
            r == self.spec_log(),
    {
        self.ln().div_scalar(T::ten().ln())
    }

    /// Returns the logarithm in the given base.
    pub fn logn(self, base: T) -> (r: Self)
        ensures
            r == self.spec_logn(base),
    {
        self.ln().div_scalar(base.ln())
    }

    /// Returns the sine.
    pub fn sin(self) -> (r: Self)
        ensures
            r == self.spec_sin(),
    {
        Self::new(
            self.real.sin().mul(self.imag.cosh()),
            self.real.cos().mul(self.imag.sinh()),
        )
    }

    /// Returns the cosine.
    pub fn cos(self) -> (r: Self)
        ensures
            r == self.spec_cos(),
    {
        Self::new(
            self.real.cos().mul(self.imag.cosh()),
            self.real.sin().neg().mul(self.imag.sinh()),
        )
    }

    /// Returns the tangent.
    pub fn tan(self) -> (r: Self)
        ensures
            r == self.spec_tan(),
    {
        self.sin().div(self.cos())
    }

    /// Returns the cotangent.
    pub fn cot(self) -> (r: Self)
        ensures
            r == self.spec_cot(),
    {
        self.tan().inv()
    }

    /// Returns the secant.
    pub fn sec(self) -> (r: Self)
        ensures
            r == self.spec_sec(),
    {
        self.cos().inv()
    }

    /// Returns the cosecant.
    pub fn csc(self) -> (r: Self)
        ensures
            r == self.spec_csc(),
    {
        self.sin().inv()
    }

    /// Returns the arc sine.
    pub fn arcsin(self) -> (r: Self)
        ensures
            r == self.spec_arcsin(),
    {
        Self::i().neg().mul(
            self.powi(2).neg().add_scalar(T::one()).sqrt().add(Self::i().mul(self)).ln(),
        )
    }

    /// Returns the arc cosine.
    pub fn arccos(self) -> (r: Self)
        ensures
            r == self.spec_arccos(),
    {
        Self::i().mul(
            self.powi(2).neg().add_scalar(T::one()).sqrt().div(Self::i()).add(self).ln(),
        )
    }

    /// Returns the arc tangent.
    pub fn arctan(self) -> (r: Self)
        ensures
            r == self.spec_arctan(),
    {
        self.div(self.powi(2).add_scalar(T::one()).sqrt()).arcsin()
    }

    /// Returns the arc cotangent.
    pub fn arccot(self) -> (r: Self)
        ensures
            r == self.spec_arccot(),
    {
        self.inv().arctan()
    }

    /// Returns the arc secant.
    pub fn arcsec(self) -> (r: Self)
        ensures
            r == self.spec_arcsec(),
    {
        self.inv().arccos()
    }

    /// Returns the arc cosecant.
    pub fn arccsc(self) -> (r: Self)
        ensures
            r == self.spec_arccsc(),
    {
        self.inv().arcsin()
    }

    /// Returns the hyperbolic sine.
    pub fn sinh(self) -> (r: Self)
        ensures
            r == self.spec_sinh(),
    {
        Self::new(
            self.real.sinh().mul(self.imag.cos()),
            self.real.cosh().mul(self.imag.sin()),
        )
    }

    /// Returns the hyperbolic cosine.
    pub fn cosh(self) -> (r: Self)
        ensures
            r == self.spec_cosh(),
    {
        Self::new(
            self.real.cosh().mul(self.imag.cos()),
            self.real.sinh().mul(self.imag.sin()),
        )
    }

    /// Returns the hyperbolic tangent.
    pub fn tanh(self) -> (r: Self)
        ensures
            r == self.spec_tanh(),
    {
        self.sinh().div(self.cosh())
    }

    /// Returns the hyperbolic cotangent.
    pub fn coth(self) -> (r: Self)
        ensures
            r == self.spec_coth(),
    {
        self.tanh().inv()
    }

    /// Returns the hyperbolic secant.
    pub fn sech(self) -> (r: Self)
        ensures
            r == self.spec_sech(),
    {
        self.cosh().inv()
    }

    /// Returns the hyperbolic cosecant.
    pub fn csch(self) -> (r: Self)
        ensures
            r == self.spec_csch(),
    {
        self.sinh().inv()
    }

    /// Returns the hyperbolic arc sine.
    pub fn arcsinh(self) -> (r: Self)
        ensures
            r == self.spec_arcsinh(),
    {
        self.powi(2).add_scalar(T::one()).sqrt().add(self).ln()
    }

    /// Returns the hyperbolic arc cosine.
    pub fn arccosh(self) -> (r: Self)
        ensures
            r == self.spec_arccosh(),
    {
        self.powi(2).sub_scalar(T::one()).sqrt().add(self).ln()
    }

    /// Returns the hyperbolic arc tangent.
    pub fn arctanh(self) -> (r: Self)
        ensures
            r == self.spec_arctanh(),
    {
        self.add_scalar(T::one()).div(self.neg().add_scalar(T::one())).ln().mul_scalar(T::half())
    }

    /// Returns the hyperbolic arc cotangent.
    pub fn arccoth(self) -> (r: Self)
        ensures
            r == self.spec_arccoth(),
    {
        self.inv().arctanh()
    }

    /// Returns the hyperbolic arc secant.
    pub fn arcsech(self) -> (r: Self)
        ensures
            r == self.spec_arcsech(),
    {
        self.inv().arccosh()
    }

    /// Returns the hyperbolic arc cosecant.
    pub fn arccsch(self) -> (r: Self)
        ensures
            r == self.spec_arccsch(),
    {
        self.inv().arcsinh()
    }

    /// Returns the polar form of this value.
    pub fn polarize(self) -> (r: ComplexPolar<T>)
        ensures
            r == self.spec_polarize(),
    {
        ComplexPolar::new(self.abs(), self.arg())
    }
}

} // verus!
