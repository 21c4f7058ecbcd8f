//! The laws the library states of its operations.
//!
//! Those provable of every scalar stand under [`Scalar`] or
//! [`Elementary`]: they rest only on laws that IEEE floating-point
//! arithmetic satisfies exactly. The algebraic identities that need
//! associative and distributive scalar arithmetic stand under
//! [`ExactScalar`], and the one that needs exact division under
//! [`ExactField`]; floating-point arithmetic satisfies neither, and for
//! it those identities hold only approximately.

use crate::complex::Complex;
use crate::scalar::Elementary;
use crate::scalar::ExactField;
use crate::scalar::ExactScalar;
use crate::scalar::Scalar;
use vstd::prelude::*;

verus! {

/// Conjugation is an involution: conjugating twice gives back the exact
/// starting value, for every pair of coordinates of every scalar.
pub proof fn lemma_conj_involution<T: Scalar>(z: Complex<T>)
    ensures
        z.spec_conj().spec_conj() == z,
{
    T::law_neg_involution();
}

/// The argument of the exact-zero value is exactly zero: the one input
/// the angle formula special-cases.
pub proof fn lemma_arg_zero<T: Elementary>(z: Complex<T>)
    requires
        z.real == T::spec_zero(),
        z.imag == T::spec_zero(),
    ensures
        z.spec_arg() == T::spec_zero(),
{
    T::law_zero();
    T::law_edge();
}

/// The natural logarithm of the exact-zero value is exactly the scalar
/// logarithm's value below zero's reach (negative infinity for floating
/// point) paired with a zero angle: the other special-cased input.
pub proof fn lemma_ln_zero<T: Elementary>(z: Complex<T>)
    requires
        z.real == T::spec_zero(),
        z.imag == T::spec_zero(),
    ensures
        z.spec_ln() == (Complex { real: T::spec_neg_inf(), imag: T::spec_zero() }),
{
    T::law_zero();
    T::law_edge();
    lemma_arg_zero(z);
}

/// A zero exponent yields the multiplicative one, whatever the base —
/// the zero base included.
pub proof fn lemma_powi_zero<T: Scalar>(z: Complex<T>)
    ensures
        z.spec_powi(0) == Complex::<T>::spec_one(),
{
}

/// The n-fold self-multiplication of a value: the mathematical reading of
/// an integer power, against which the squaring recurrence is checked.
pub open spec fn spec_pow_repeat<T: Scalar>(z: Complex<T>, n: nat) -> Complex<T>
    decreases n,
{
    if n == 0 {
        Complex::spec_one()
    } else {
        z.spec_mul(spec_pow_repeat(z, (n - 1) as nat))
    }
}

/// Complex addition is commutative over an exact scalar.
pub proof fn lemma_add_comm<T: ExactScalar>(a: Complex<T>, b: Complex<T>)
    ensures
        a.spec_add(b) == b.spec_add(a),
{
    T::law_commutative_ring();
}

/// Complex multiplication is commutative over an exact scalar.
pub proof fn lemma_mul_comm<T: ExactScalar>(a: Complex<T>, b: Complex<T>)
    ensures
        a.spec_mul(b) == b.spec_mul(a),
{
    T::law_commutative_ring();
}

/// Complex addition is associative over an exact scalar.
pub proof fn lemma_add_assoc<T: ExactScalar>(a: Complex<T>, b: Complex<T>, c: Complex<T>)
    ensures
        a.spec_add(b).spec_add(c) == a.spec_add(b.spec_add(c)),
{
    T::law_commutative_ring();
}

/// The multiplicative one is neutral over an exact scalar.
pub proof fn lemma_mul_one<T: ExactScalar>(z: Complex<T>)
    ensures
        Complex::<T>::spec_one().spec_mul(z) == z,
        z.spec_mul(Complex::<T>::spec_one()) == z,
{
    T::law_commutative_ring();
}

/// Complex multiplication is associative over an exact scalar.
pub proof fn lemma_mul_assoc<T: ExactScalar>(a: Complex<T>, b: Complex<T>, c: Complex<T>)
    ensures
        a.spec_mul(b).spec_mul(c) == a.spec_mul(b.spec_mul(c)),
{
    T::law_commutative_ring();
}

/// Rearranging a product of two squares into the square of a product.
proof fn lemma_square_of_products<T: ExactScalar>(x: T, y: T)
    ensures
        x.spec_mul(x).spec_mul(y.spec_mul(y)) == x.spec_mul(y).spec_mul(x.spec_mul(y)),
{
    T::law_commutative_ring();
}

/// Cancelling a common nonzero factor on the right of an equal product.
proof fn lemma_cancel_factor<T: ExactField>(x: T, y: T, m: T)
    requires
        !m.spec_is_zero(),
        x.spec_mul(m) == y.spec_mul(m),
    ensures
        x == y,
{
    T::law_field();
    assert(x.spec_mul(m).spec_div(m) == x);
    assert(y.spec_mul(m).spec_div(m) == y);
}

/// Inverting twice gives back the exact starting value, over an exact
/// field, wherever the inverse's defining division is nondegenerate: the
/// squared magnitude must not test as zero. Over the real field that
/// hypothesis says exactly that the value is nonzero; a general exact
/// field can give zero divisors a vanishing squared magnitude (over the
/// two-element field, `1 + i`), and floating-point rounding makes the
/// identity only approximate there.
pub proof fn lemma_inv_involution<T: ExactField>(z: Complex<T>)
    requires
        !z.spec_square_abs().spec_is_zero(),
    ensures
        z.spec_inv().spec_inv() == z,
{
    let a = z.real;
    let b = z.imag;
    let s = z.spec_square_abs();
    let u = a.spec_div(s);
    let v = b.spec_neg().spec_div(s);
    assert(z.spec_inv() == (Complex { real: u, imag: v }));
    let t = z.spec_inv().spec_square_abs();
    let s2 = s.spec_mul(s);
    assert(!s2.spec_is_zero()) by {
        T::law_field();
    }
    // The components of the inverse, multiplied back by the squared
    // magnitude.
    assert(u.spec_mul(s) == a) by {
        T::law_field();
    }
    assert(v.spec_mul(s) == b.spec_neg()) by {
        T::law_field();
    }
    assert(v.spec_neg().spec_mul(s) == b) by {
        T::law_commutative_ring();
        T::law_neg_involution();
    }
    // The inverse's squared magnitude, scaled by the square of the
    // original one, gives the original one back.
    lemma_square_of_products(u, s);
    lemma_square_of_products(v, s);
    assert(u.spec_mul(u).spec_mul(s2) == a.spec_mul(a));
    assert(b.spec_neg().spec_mul(b.spec_neg()) == b.spec_mul(b)) by {
        T::law_commutative_ring();
        T::law_neg_involution();
    }
    assert(v.spec_mul(v).spec_mul(s2) == b.spec_mul(b));
    assert(t.spec_mul(s2) == u.spec_mul(u).spec_mul(s2).spec_add(v.spec_mul(v).spec_mul(s2)))
        by {
        T::law_commutative_ring();
    }
    assert(t.spec_mul(s2) == s);
    // That magnitude cannot test as zero either.
    if t.spec_is_zero() {
        assert(t == T::spec_zero()) by {
            T::law_field();
        }
        assert(T::spec_zero().spec_mul(s2) == T::spec_zero()) by {
            T::law_commutative_ring();
        }
        assert(s.spec_is_zero()) by {
            T::law_field();
        }
        assert(false);
    }
    // Cancel the squared magnitude to land back on the coordinates.
    assert(u.spec_mul(s2) == a.spec_mul(s)) by {
        T::law_commutative_ring();
    }
    assert(a.spec_mul(t).spec_mul(s2) == a.spec_mul(s)) by {
        T::law_commutative_ring();
    }
    lemma_cancel_factor(u, a.spec_mul(t), s2);
    assert(a.spec_mul(t).spec_div(t) == a) by {
        T::law_field();
    }
    assert(u.spec_div(t) == a);
    assert(v.spec_neg().spec_mul(s2) == b.spec_mul(s)) by {
        T::law_commutative_ring();
    }
    assert(b.spec_mul(t).spec_mul(s2) == b.spec_mul(s)) by {
        T::law_commutative_ring();
    }
    lemma_cancel_factor(v.spec_neg(), b.spec_mul(t), s2);
    assert(b.spec_mul(t).spec_div(t) == b) by {
        T::law_field();
    }
    assert(v.spec_neg().spec_div(t) == b);
    assert(z.spec_inv().spec_inv() == (Complex {
        real: u.spec_div(t),
        imag: v.spec_neg().spec_div(t),
    }));
}

/// Powers of a square: multiplying the squared base k times is
/// multiplying the base 2k times.
proof fn lemma_pow_repeat_square<T: ExactScalar>(z: Complex<T>, k: nat)
    ensures
        spec_pow_repeat(z.spec_mul(z), k) == spec_pow_repeat(z, 2 * k),
    decreases k,
{
    if k > 0 {
        lemma_pow_repeat_square(z, (k - 1) as nat);
        assert(spec_pow_repeat(z, 2 * k) == z.spec_mul(spec_pow_repeat(z, (2 * k - 1) as nat)));
        assert(spec_pow_repeat(z, (2 * k - 1) as nat) == z.spec_mul(
            spec_pow_repeat(z, (2 * k - 2) as nat),
        ));
        lemma_mul_assoc(z, z, spec_pow_repeat(z, (2 * k - 2) as nat));
    }
}

/// The integer power by squaring equals the n-fold self-multiplication,
/// over an exact scalar: the cross-check of the exponentiation-by-squaring
/// recurrence against repeated multiplication. (Over a floating-point
/// scalar the two sides round differently and agree only approximately.)
pub proof fn lemma_powi_repeated_mul<T: ExactScalar>(z: Complex<T>, n: nat)
    ensures
        z.spec_powi(n) == spec_pow_repeat(z, n),
    decreases n,
{
    if n == 1 {
        lemma_mul_one(z);
        assert(spec_pow_repeat(z, 1) == z.spec_mul(spec_pow_repeat(z, 0)));
    } else if n > 1 && n % 2 == 0 {
        lemma_powi_repeated_mul(z.spec_mul(z), n / 2);
        lemma_pow_repeat_square(z, n / 2);
    } else if n > 1 {
        lemma_powi_repeated_mul(z.spec_mul(z), ((n - 1) / 2) as nat);
        lemma_pow_repeat_square(z, ((n - 1) / 2) as nat);
        assert(spec_pow_repeat(z, n) == z.spec_mul(spec_pow_repeat(z, (n - 1) as nat)));
    }
}

} // verus!
