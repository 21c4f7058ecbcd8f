//! The two-element field, as a minimal exact scalar.
//!
//! The capability traits of [`crate::scalar`] state laws that every
//! implementation must prove; this field implements all three inside the
//! verified library, so the laws are witnessed consistent and the generic
//! core has one instantiation that Verus checks end to end. Division is
//! total here as the traits ask: dividing by the zero element yields the
//! zero element. The transcendental entries take the values the field can
//! offer: squaring is the identity in this field, so the square root is
//! too, and the remaining entries are fixed elements chosen to satisfy the
//! stated edge laws (the field has no transcendental structure and no
//! infinite element).

use crate::scalar::Elementary;
use crate::scalar::ExactField;
use crate::scalar::ExactScalar;
use crate::scalar::Scalar;
use vstd::prelude::*;

verus! {

/// An element of the two-element field: the parity of an integer.
#[derive(Debug, PartialEq, Eq, Clone, Copy)]
pub struct Gf2 {
    /// Whether this is the nonzero element.
    pub odd: bool,
}

impl Scalar for Gf2 {
    open spec fn spec_add(self, rhs: Self) -> Self {
        Gf2 { odd: self.odd != rhs.odd }
    }

    open spec fn spec_sub(self, rhs: Self) -> Self {
        Gf2 { odd: self.odd != rhs.odd }
    }

    open spec fn spec_mul(self, rhs: Self) -> Self {
        Gf2 { odd: self.odd && rhs.odd }
    }

    open spec fn spec_div(self, rhs: Self) -> Self {
        if rhs.odd {
            self
        } else {
            Gf2 { odd: false }
        }
    }

    open spec fn spec_neg(self) -> Self {
        self
    }

    open spec fn spec_rem(self, rhs: Self) -> Self {
        if rhs.odd {
            Gf2 { odd: false }
        } else {
            self
        }
    }

    open spec fn spec_signum(self) -> Self {
        Gf2 { odd: true }
    }

    open spec fn spec_is_zero(self) -> bool {
        !self.odd
    }

    open spec fn spec_is_neg(self) -> bool {
        false
    }

    open spec fn spec_zero() -> Self {
        Gf2 { odd: false }
    }

    open spec fn spec_one() -> Self {
        Gf2 { odd: true }
    }

    open spec fn spec_two() -> Self {
        Gf2 { odd: false }
    }

    open spec fn spec_half() -> Self {
        Gf2 { odd: false }
    }

    open spec fn spec_ten() -> Self {
        Gf2 { odd: false }
    }

    fn add(self, rhs: Self) -> Self {
        Gf2 { odd: self.odd != rhs.odd }
    }

    fn sub(self, rhs: Self) -> Self {
        Gf2 { odd: self.odd != rhs.odd }
    }

    fn mul(self, rhs: Self) -> Self {
        Gf2 { odd: self.odd && rhs.odd }
    }

    fn div(self, rhs: Self) -> Self {
        if rhs.odd {
            self
        } else {
            Gf2 { odd: false }
        }
    }

    fn neg(self) -> Self {
        self
    }

    fn rem(self, rhs: Self) -> Self {
        if rhs.odd {
            Gf2 { odd: false }
        } else {
            self
        }
    }

    fn signum(self) -> Self {
        Gf2 { odd: true }
    }

    fn is_zero(self) -> bool {
        !self.odd
    }

    fn is_neg(self) -> bool {
        false
    }

    fn zero() -> Self {
        Gf2 { odd: false }
    }

    fn one() -> Self {
        Gf2 { odd: true }
    }

    fn two() -> Self {
        Gf2 { odd: false }
    }

    fn half() -> Self {
        Gf2 { odd: false }
    }

    fn ten() -> Self {
        Gf2 { odd: false }
    }

    proof fn law_neg_involution() {
    }

    proof fn law_zero() {
    }
}

impl Elementary for Gf2 {
    open spec fn spec_sqrt(self) -> Self {
        self
    }

    open spec fn spec_exp(self) -> Self {
        Gf2 { odd: true }
    }

    open spec fn spec_ln(self) -> Self {
        Gf2 { odd: false }
    }

    open spec fn spec_sin(self) -> Self {
        Gf2 { odd: false }
    }

    open spec fn spec_cos(self) -> Self {
        Gf2 { odd: true }
    }

    open spec fn spec_sinh(self) -> Self {
        self
    }

    open spec fn spec_cosh(self) -> Self {
        Gf2 { odd: true }
    }

    open spec fn spec_acos(self) -> Self {
        Gf2 { odd: false }
    }

    open spec fn spec_powf(self, exponent: Self) -> Self {
        if exponent.odd {
            self
        } else {
            Gf2 { odd: true }
        }
    }

    open spec fn spec_pi() -> Self {
        Gf2 { odd: false }
    }

    open spec fn spec_neg_inf() -> Self {
        Gf2 { odd: false }
    }

    fn sqrt(self) -> Self {
        self
    }

    fn exp(self) -> Self {
        Gf2 { odd: true }
    }

    fn ln(self) -> Self {
        Gf2 { odd: false }
    }

    fn sin(self) -> Self {
        Gf2 { odd: false }
    }

    fn cos(self) -> Self {
        Gf2 { odd: true }
    }

    fn sinh(self) -> Self {
        self
    }

    fn cosh(self) -> Self {
        Gf2 { odd: true }
    }

    fn acos(self) -> Self {
        Gf2 { odd: false }
    }

    fn powf(self, exponent: Self) -> Self {
        if exponent.odd {
            self
        } else {
            Gf2 { odd: true }
        }
    }

    fn pi() -> Self {
        Gf2 { odd: false }
    }

    proof fn law_edge() {
    }
}

impl ExactScalar for Gf2 {
    proof fn law_commutative_ring() {
    }
}

impl ExactField for Gf2 {
    proof fn law_field() {
    }
}

} // verus!
