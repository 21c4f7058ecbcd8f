//! The scalar capability traits.
//!
//! The complex-number core is written generically against these traits
//! rather than against a concrete coordinate type. [`Scalar`] carries the
//! algebraic operations and the small constants the core needs; its
//! executable methods are each pinned to an abstract specification-level
//! counterpart, so the contracts of the complex operations can say exactly
//! which scalar operations produced each component. [`Elementary`] adds the
//! transcendental primitives. [`ExactScalar`] adds the commutative-ring laws
//! that exact arithmetic satisfies; laws stated on [`Scalar`] and
//! [`Elementary`] themselves are only those that hold of IEEE floating-point
//! arithmetic exactly, value for value.

use vstd::prelude::*;

verus! {

/// Arithmetic capability of the coordinate type.
///
/// An implementation must prove [`Scalar::law_neg_involution`] and
/// [`Scalar::law_zero`]; nothing else is assumed of the arithmetic, so the
/// trait can be carried by floating-point types, whose addition and
/// multiplication are neither associative nor distributive.
pub trait Scalar: Sized + Copy {
    /// Specification-level addition.
    spec fn spec_add(self, rhs: Self) -> Self;

    /// Specification-level subtraction.
    spec fn spec_sub(self, rhs: Self) -> Self;

    /// Specification-level multiplication.
    spec fn spec_mul(self, rhs: Self) -> Self;

    /// Specification-level division, total: a division by zero yields
    /// whatever value the implementation assigns to it (IEEE-754 arithmetic
    /// yields an infinity or a quiet NaN, never an error).
    spec fn spec_div(self, rhs: Self) -> Self;

    /// Specification-level negation.
    spec fn spec_neg(self) -> Self;

    /// Specification-level remainder, total in the same sense as division.
    spec fn spec_rem(self, rhs: Self) -> Self;

    /// Specification-level sign function.
    spec fn spec_signum(self) -> Self;

    /// Whether the value compares equal to the additive zero.
    spec fn spec_is_zero(self) -> bool;

    /// Whether the value compares strictly below the additive zero.
    spec fn spec_is_neg(self) -> bool;

    /// The additive zero.
    spec fn spec_zero() -> Self;

    /// The multiplicative one.
    spec fn spec_one() -> Self;

    /// The constant two.
    spec fn spec_two() -> Self;

    /// The constant one half.
    spec fn spec_half() -> Self;

    /// The constant ten.
    spec fn spec_ten() -> Self;

    fn add(self, rhs: Self) -> (r: Self)
        ensures
            r == self.spec_add(rhs),
    ;

    fn sub(self, rhs: Self) -> (r: Self)
        ensures
            r == self.spec_sub(rhs),
    ;

    fn mul(self, rhs: Self) -> (r: Self)
        ensures
            r == self.spec_mul(rhs),
    ;

    fn div(self, rhs: Self) -> (r: Self)
        ensures
            r == self.spec_div(rhs),
    ;

    fn neg(self) -> (r: Self)
        ensures
            r == self.spec_neg(),
    ;

    fn rem(self, rhs: Self) -> (r: Self)
        ensures
            r == self.spec_rem(rhs),
    ;

    fn signum(self) -> (r: Self)
        ensures
            r == self.spec_signum(),
    ;

    fn is_zero(self) -> (r: bool)
        ensures
            r == self.spec_is_zero(),
    ;

    fn is_neg(self) -> (r: bool)
        ensures
            r == self.spec_is_neg(),
    ;

    fn zero() -> (r: Self)
        ensures
            r == Self::spec_zero(),
    ;

    fn one() -> (r: Self)
        ensures
            r == Self::spec_one(),
    ;

    fn two() -> (r: Self)
        ensures
            r == Self::spec_two(),
    ;

    fn half() -> (r: Self)
        ensures
            r == Self::spec_half(),
    ;

    fn ten() -> (r: Self)
        ensures
            r == Self::spec_ten(),
    ;

    /// Negation is an involution. IEEE-754 negation only flips the sign
    /// bit, so this holds of floating-point values exactly, NaN included.
    proof fn law_neg_involution()
        ensures
            forall|x: Self| #[trigger] x.spec_neg().spec_neg() == x,
    ;

    /// Negating a strictly negative value never yields a strictly negative
    /// value, and the exact-zero cases of the arithmetic: adding zero to
    /// zero and multiplying zero by zero give zero again, and zero tests as
    /// zero. All hold of IEEE-754 arithmetic exactly.
    proof fn law_zero()
        ensures
            forall|x: Self| x.spec_is_neg() ==> !(#[trigger] x.spec_neg().spec_is_neg()),
            Self::spec_zero().spec_add(Self::spec_zero()) == Self::spec_zero(),
            Self::spec_zero().spec_mul(Self::spec_zero()) == Self::spec_zero(),
            Self::spec_zero().spec_is_zero(),
    ;
}

/// Transcendental capability of the coordinate type: the elementary
/// real-valued primitives that the complex transcendental family is a
/// closed-form combination of.
pub trait Elementary: Scalar {
    /// Specification-level square root.
    spec fn spec_sqrt(self) -> Self;

    /// Specification-level exponential.
    spec fn spec_exp(self) -> Self;

    /// Specification-level natural logarithm, total: at zero it yields the
    /// value named by [`Elementary::spec_neg_inf`].
    spec fn spec_ln(self) -> Self;

    /// Specification-level sine.
    spec fn spec_sin(self) -> Self;

    /// Specification-level cosine.
    spec fn spec_cos(self) -> Self;

    /// Specification-level hyperbolic sine.
    spec fn spec_sinh(self) -> Self;

    /// Specification-level hyperbolic cosine.
    spec fn spec_cosh(self) -> Self;

    /// Specification-level arc cosine.
    spec fn spec_acos(self) -> Self;

    /// Specification-level real power.
    spec fn spec_powf(self, exponent: Self) -> Self;

    /// The constant pi.
    spec fn spec_pi() -> Self;

    /// The value the logarithm takes at zero: negative infinity for a
    /// floating-point implementation.
    spec fn spec_neg_inf() -> Self;

    fn sqrt(self) -> (r: Self)
        ensures
            r == self.spec_sqrt(),
    ;

    fn exp(self) -> (r: Self)
        ensures
            r == self.spec_exp(),
    ;

    fn ln(self) -> (r: Self)
        ensures
            r == self.spec_ln(),
    ;

    fn sin(self) -> (r: Self)
        ensures
            r == self.spec_sin(),
    ;

    fn cos(self) -> (r: Self)
        ensures
            r == self.spec_cos(),
    ;

    fn sinh(self) -> (r: Self)
        ensures
            r == self.spec_sinh(),
    ;

    fn cosh(self) -> (r: Self)
        ensures
            r == self.spec_cosh(),
    ;

    fn acos(self) -> (r: Self)
        ensures
            r == self.spec_acos(),
    ;

    fn powf(self, exponent: Self) -> (r: Self)
        ensures
            r == self.spec_powf(exponent),
    ;

    fn pi() -> (r: Self)
        ensures
            r == Self::spec_pi(),
    ;

    /// The exact edge cases the design preserves: the square root of zero
    /// is zero, the logarithm of zero is the designated value below zero's
    /// reach (negative infinity for floating point), and halving that value
    /// gives it back. All hold of IEEE-754 arithmetic exactly.
    proof fn law_edge()
        ensures
            Self::spec_zero().spec_sqrt() == Self::spec_zero(),
            Self::spec_zero().spec_ln() == Self::spec_neg_inf(),
            Self::spec_neg_inf().spec_div(Self::spec_two()) == Self::spec_neg_inf(),
    ;
}

/// A scalar whose arithmetic satisfies the commutative-ring laws exactly.
///
/// Floating-point arithmetic does not (addition and multiplication are not
/// associative), so the laws proved under this bound speak of exact
/// coordinate types only.
pub trait ExactScalar: Scalar {
    /// The commutative-ring laws of the scalar arithmetic, together with
    /// the compatibility of subtraction and negation with them.
    proof fn law_commutative_ring()
        ensures
            forall|a: Self, b: Self| #[trigger] a.spec_add(b) == b.spec_add(a),
            forall|a: Self, b: Self, c: Self|
                #[trigger] a.spec_add(b).spec_add(c) == a.spec_add(b.spec_add(c)),
            forall|a: Self| #[trigger] a.spec_add(Self::spec_zero()) == a,
            forall|a: Self, b: Self| #[trigger] a.spec_mul(b) == b.spec_mul(a),
            forall|a: Self, b: Self, c: Self|
                #[trigger] a.spec_mul(b).spec_mul(c) == a.spec_mul(b.spec_mul(c)),
            forall|a: Self| #[trigger] a.spec_mul(Self::spec_one()) == a,
            forall|a: Self| #[trigger] a.spec_mul(Self::spec_zero()) == Self::spec_zero(),
            forall|a: Self, b: Self, c: Self|
                #[trigger] a.spec_mul(b.spec_add(c)) == a.spec_mul(b).spec_add(a.spec_mul(c)),
            forall|a: Self, b: Self| #[trigger] a.spec_sub(b) == a.spec_add(b.spec_neg()),
            forall|a: Self, b: Self| #[trigger] a.spec_mul(b.spec_neg()) == a.spec_mul(b).spec_neg(),
            forall|a: Self, b: Self|
                #[trigger] a.spec_add(b).spec_neg() == a.spec_neg().spec_add(b.spec_neg()),
            Self::spec_zero().spec_neg() == Self::spec_zero(),
    ;
}

/// A scalar whose arithmetic is an exact field: the ring laws of
/// [`ExactScalar`] together with exact cancellation between multiplication
/// and division by a nonzero divisor, the absence of zero divisors, and
/// the zero test agreeing with the zero element.
///
/// Floating-point division rounds, so these laws too speak of exact
/// coordinate types only.
pub trait ExactField: ExactScalar {
    /// The field laws of division.
    proof fn law_field()
        ensures
            forall|a: Self, b: Self|
                !b.spec_is_zero() ==> #[trigger] a.spec_div(b).spec_mul(b) == a,
            forall|x: Self, m: Self|
                !m.spec_is_zero() ==> #[trigger] x.spec_mul(m).spec_div(m) == x,
            forall|a: Self, b: Self|
                !a.spec_is_zero() && !b.spec_is_zero() ==> !(#[trigger] a.spec_mul(
                    b,
                )).spec_is_zero(),
            forall|x: Self| #[trigger] x.spec_is_zero() <==> x == Self::spec_zero(),
    ;
}

} // verus!
