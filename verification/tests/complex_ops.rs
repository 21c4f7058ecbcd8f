use ccmath::Complex;
use ccmath::ComplexPolar;
use ccmath::Elementary;
use ccmath::Scalar;

// Outside verification the specification-level trait items are inert; they
// are implemented here as the operations they specify, and the law items
// as empty functions.

#[derive(Debug, PartialEq, Clone, Copy)]
struct F64(f64);

impl Scalar for F64 {
    fn spec_add(self, rhs: Self) -> Self {
        self.add(rhs)
    }
    fn spec_sub(self, rhs: Self) -> Self {
        self.sub(rhs)
    }
    fn spec_mul(self, rhs: Self) -> Self {
        self.mul(rhs)
    }
    fn spec_div(self, rhs: Self) -> Self {
        self.div(rhs)
    }
    fn spec_neg(self) -> Self {
        self.neg()
    }
    fn spec_rem(self, rhs: Self) -> Self {
        self.rem(rhs)
    }
    fn spec_signum(self) -> Self {
        self.signum()
    }
    fn spec_is_zero(self) -> bool {
        self.is_zero()
    }
    fn spec_is_neg(self) -> bool {
        self.is_neg()
    }
    fn spec_zero() -> Self {
        Self::zero()
    }
    fn spec_one() -> Self {
        Self::one()
    }
    fn spec_two() -> Self {
        Self::two()
    }
    fn spec_half() -> Self {
        Self::half()
    }
    fn spec_ten() -> Self {
        Self::ten()
    }
    fn law_neg_involution() {}
    fn law_zero() {}
    fn add(self, rhs: Self) -> Self {
        F64(self.0 + rhs.0)
    }
    fn sub(self, rhs: Self) -> Self {
        F64(self.0 - rhs.0)
    }
    fn mul(self, rhs: Self) -> Self {
        F64(self.0 * rhs.0)
    }
    fn div(self, rhs: Self) -> Self {
        F64(self.0 / rhs.0)
    }
    fn neg(self) -> Self {
        F64(-self.0)
    }
    fn rem(self, rhs: Self) -> Self {
        F64(self.0 % rhs.0)
    }
    fn signum(self) -> Self {
        F64(self.0.signum())
    }
    fn is_zero(self) -> bool {
        self.0 == 0.0
    }
    fn is_neg(self) -> bool {
        self.0 < 0.0
    }
    fn zero() -> Self {
        F64(0.0)
    }
    fn one() -> Self {
        F64(1.0)
    }
    fn two() -> Self {
        F64(2.0)
    }
    fn half() -> Self {
        F64(0.5)
    }
    fn ten() -> Self {
        F64(10.0)
    }
}

impl Elementary for F64 {
    fn spec_sqrt(self) -> Self {
        self.sqrt()
    }
    fn spec_exp(self) -> Self {
        self.exp()
    }
    fn spec_ln(self) -> Self {
        self.ln()
    }
    fn spec_sin(self) -> Self {
        self.sin()
    }
    fn spec_cos(self) -> Self {
        self.cos()
    }
    fn spec_sinh(self) -> Self {
        self.sinh()
    }
    fn spec_cosh(self) -> Self {
        self.cosh()
    }
    fn spec_acos(self) -> Self {
        self.acos()
    }
    fn spec_powf(self, exponent: Self) -> Self {
        self.powf(exponent)
    }
    fn spec_pi() -> Self {
        Self::pi()
    }
    fn spec_neg_inf() -> Self {
        F64(f64::NEG_INFINITY)
    }
    fn law_edge() {}
    fn sqrt(self) -> Self {
        F64(self.0.sqrt())
    }
    fn exp(self) -> Self {
        F64(self.0.exp())
    }
    fn ln(self) -> Self {
        F64(self.0.ln())
    }
    fn sin(self) -> Self {
        F64(self.0.sin())
    }
    fn cos(self) -> Self {
        F64(self.0.cos())
    }
    fn sinh(self) -> Self {
        F64(self.0.sinh())
    }
    fn cosh(self) -> Self {
        F64(self.0.cosh())
    }
    fn acos(self) -> Self {
        F64(self.0.acos())
    }
    fn powf(self, exponent: Self) -> Self {
        F64(self.0.powf(exponent.0))
    }
    fn pi() -> Self {
        F64(std::f64::consts::PI)
    }
}

#[derive(Debug, PartialEq, Clone, Copy)]
struct F32(f32);

impl Scalar for F32 {
    fn spec_add(self, rhs: Self) -> Self {
        self.add(rhs)
    }
    fn spec_sub(self, rhs: Self) -> Self {
        self.sub(rhs)
    }
    fn spec_mul(self, rhs: Self) -> Self {
        self.mul(rhs)
    }
    fn spec_div(self, rhs: Self) -> Self {
        self.div(rhs)
    }
    fn spec_neg(self) -> Self {
        self.neg()
    }
    fn spec_rem(self, rhs: Self) -> Self {
        self.rem(rhs)
    }
    fn spec_signum(self) -> Self {
        self.signum()
    }
    fn spec_is_zero(self) -> bool {
        self.is_zero()
    }
    fn spec_is_neg(self) -> bool {
        self.is_neg()
    }
    fn spec_zero() -> Self {
        Self::zero()
    }
    fn spec_one() -> Self {
        Self::one()
    }
    fn spec_two() -> Self {
        Self::two()
    }
    fn spec_half() -> Self {
        Self::half()
    }
    fn spec_ten() -> Self {
        Self::ten()
    }
    fn law_neg_involution() {}
    fn law_zero() {}
    fn add(self, rhs: Self) -> Self {
        F32(self.0 + rhs.0)
    }
    fn sub(self, rhs: Self) -> Self {
        F32(self.0 - rhs.0)
    }
    fn mul(self, rhs: Self) -> Self {
        F32(self.0 * rhs.0)
    }
    fn div(self, rhs: Self) -> Self {
        F32(self.0 / rhs.0)
    }
    fn neg(self) -> Self {
        F32(-self.0)
    }
    fn rem(self, rhs: Self) -> Self {
        F32(self.0 % rhs.0)
    }
    fn signum(self) -> Self {
        F32(self.0.signum())
    }
    fn is_zero(self) -> bool {
        self.0 == 0.0
    }
    fn is_neg(self) -> bool {
        self.0 < 0.0
    }
    fn zero() -> Self {
        F32(0.0)
    }
    fn one() -> Self {
        F32(1.0)
    }
    fn two() -> Self {
        F32(2.0)
    }
    fn half() -> Self {
        F32(0.5)
    }
    fn ten() -> Self {
        F32(10.0)
    }
}

fn c64(re: f64, im: f64) -> Complex<F64> {
    Complex::new(F64(re), F64(im))
}

fn c32(re: f32, im: f32) -> Complex<F32> {
    Complex::new(F32(re), F32(im))
}

fn close(a: f64, b: f64, tol: f64) -> bool {
    (a - b).abs() <= tol
}

fn close_c(a: Complex<F64>, b: Complex<F64>, tol: f64) -> bool {
    close(a.real.0, b.real.0, tol) && close(a.imag.0, b.imag.0, tol)
}

#[test]
fn unary_operators() {
    let z1 = c64(3.0, 4.0);
    let z2 = c64(5.2, -0.9);

    // re and imag
    assert_eq!(z1.re(), F64(3.0));
    assert_eq!(z1.imag(), F64(4.0));
    assert_eq!(z2.re(), F64(5.2));
    assert_eq!(z2.imag(), F64(-0.9));

    // abs
    assert_eq!(z1.abs(), F64(5.0));
    assert_eq!(z2.abs(), F64(f64::sqrt(27.85)));

    // square abs
    assert_eq!(z1.square_abs(), F64(25.0));
    assert_eq!(z2.square_abs(), F64(27.85));

    // arg
    assert_eq!(z1.arg(), F64(0.9272952180016123));
    assert_eq!(z2.arg(), F64(-0.1713791263895069));

    // inv
    assert_eq!(z1.inv(), c64(0.12, -0.16));
    assert_eq!(z2.inv(), c64(0.1867145421903052, 0.03231597845601436));

    // exp
    assert_eq!(
        c64(0.0, std::f64::consts::PI).exp(),
        c64(-1.0, 1.2246467991473532e-16)
    );
    assert_eq!(z1.exp(), c64(-13.128783081462158, -15.200784463067954));

    // ln
    assert_eq!(c64(0.0, 0.0).ln(), c64(f64::NEG_INFINITY, 0.0));
    assert_eq!(c64(-1.0, 0.0).ln(), c64(0.0, std::f64::consts::PI));
}

#[test]
fn binary_operators() {
    let z1 = c32(3.0, 4.0);
    let z2 = c32(-2.5, 6.23);

    // add
    assert_eq!(z1.add_scalar(F32(5.0)), c32(8.0, 4.0));
    assert_eq!(Complex::scalar_add(F32(5.0), z1), c32(8.0, 4.0));
    assert_eq!(z1.add(z2), c32(0.5, 10.23));

    // subtract: componentwise on both coordinates
    assert_eq!(z1.sub_scalar(F32(5.0)), c32(-2.0, 4.0));
    assert_eq!(Complex::scalar_sub(F32(5.0), z1), c32(2.0, -4.0));
    assert_eq!(z1.sub(z2), c32(5.5, 4.0 - 6.23));

    // multiply
    assert_eq!(z1.mul_scalar(F32(-0.5)), c32(-1.5, -2.0));
    assert_eq!(Complex::scalar_mul(F32(1.8), z2), c32(-4.5, 11.214));
    assert_eq!(
        z1.mul(z2),
        c32(-32.42, z1.real.0 * z2.imag.0 + z1.imag.0 * z2.real.0)
    );

    // dividing
    assert_eq!(z1.div_scalar(F32(-0.5)), c32(-6.0, -8.0));
    assert_eq!(
        Complex::scalar_div(F32(1.8), z2),
        c32(-0.099860415, -0.24885215)
    );
    assert_eq!(
        z1.div(z2),
        c32(
            0.38657075,
            z1.real.0 * z2.inv().imag.0 + z1.imag.0 * z2.inv().real.0
        )
    );

    let z3 = c64(3.0, 4.0);
    let z4 = c64(5.2, -0.9);

    // powi
    assert_eq!(z3.powi(6), c64(11753.0, -10296.0));
    assert_eq!(z4.powi(-2), c64(0.03381799780176568, 0.012067726245692974));

    // powf
    assert_eq!(z3.powf(F64(3.0)), c64(-117.0, 43.99999999999998));
    assert_eq!(
        z4.powf(F64(-2.5)),
        c64(0.014217542838549325, 0.00649377309897787)
    );

    // powc
    assert_eq!(z3.powc(z4), c64(-9667.467998399987, -2282.430226186542));
    assert_eq!(z4.powc(z3), c64(288.7067987011787, -41.7623644411436));
}

#[test]
fn complex_trig() {
    let z1 = c64(3.0, 4.0);

    // sin
    assert_eq!(z1.sin(), c64(3.853738037919377, -27.016813258003932));

    // cos
    assert_eq!(z1.cos(), c64(-27.034945603074224, -3.851153334811777));

    // tan
    assert_eq!(z1.tan(), c64(-0.00018734620462948492, 0.999355987381473));

    // cot, the tangent's reciprocal
    assert_eq!(z1.cot(), c64(-0.00018758773798366576, -1.0006443924715591));

    // sec
    assert_eq!(z1.sec(), c64(-0.03625349691586887, 0.005164344607753179));

    // csc
    assert_eq!(z1.csc(), c64(0.005174473184019398, 0.03627588962862602));
}

#[test]
fn complex_inverse_trig() {
    let z1 = c64(3.0, 4.0);

    // arcsin
    assert_eq!(z1.arcsin(), c64(0.6339838656391737, 2.305509031243471));

    // arccos
    assert_eq!(z1.arccos(), c64(0.9368124611557229, -2.305509031243471));

    // arctan, reduced to the arc sine
    assert_eq!(z1.arctan(), c64(1.4483069952314649, 0.1589971916799988));

    // arccot
    assert_eq!(z1.arccot(), c64(0.12248933156343111, -0.1589971916799991));

    // arcsec
    assert_eq!(z1.arcsec(), c64(1.4520455954874867, 0.1604455337745046));

    // arccsc
    assert_eq!(z1.arccsc(), c64(0.11875073130740989, -0.1604455337745046));
}

#[test]
fn complex_hyperbolic_trig() {
    let z1 = c64(3.0, 4.0);

    // sinh
    assert_eq!(z1.sinh(), c64(-6.5481200409110025, -7.61923172032141));

    // cosh
    assert_eq!(z1.cosh(), c64(-6.580663040551157, -7.581552742746545));

    // tanh
    assert_eq!(z1.tanh(), c64(1.000709536067233, 0.004908258067495952));

    // coth, the hyperbolic tangent's reciprocal
    assert_eq!(z1.coth(), c64(0.9992669278059015, -0.004901182394304366));

    // sech
    assert_eq!(z1.sech(), c64(-0.06529402785794704, 0.07522496030277322));

    // csch
    assert_eq!(z1.csch(), c64(-0.0648774713706355, 0.0754898329158637));
}

#[test]
fn complex_inverse_hyperbolic_trig() {
    let z1 = c64(3.0, 4.0);

    // arcsinh
    assert_eq!(z1.arcsinh(), c64(2.2999140408792695, 0.9176168533514786));

    // arccosh
    assert_eq!(z1.arccosh(), c64(2.305509031243477, 0.9368124611557199));

    // arctanh
    assert_eq!(z1.arctanh(), c64(0.11750090731143398, 1.4099210495965755));

    // arccoth
    assert_eq!(z1.arccoth(), c64(0.11750090731143398, -0.16087527719832115));

    // arcsech
    assert_eq!(z1.arcsech(), c64(0.1604455337745046, -1.4520455954874867));

    // arccsch
    assert_eq!(z1.arccsch(), c64(0.12124561370968728, -0.15950663187736328));
}

#[test]
fn conj_is_involution() {
    let z = c64(4.0, 5.0);
    assert_eq!(z.conj(), c64(4.0, -5.0));
    assert_eq!(z.conj().conj(), z);
    let w = c64(-1.4, 21.6);
    assert_eq!(w.conj().conj(), w);
    assert_eq!(Complex::<F64>::i(), c64(0.0, 1.0));
}

#[test]
fn inv_is_involution_within_tolerance() {
    for &(re, im) in &[(3.0, 4.0), (-0.5, 2.25), (1e-3, -7.5)] {
        let z = c64(re, im);
        assert!(close_c(z.inv().inv(), z, 1e-12));
    }
}

#[test]
fn abs_squared_matches_square_abs() {
    for &(re, im) in &[(3.0, 4.0), (5.2, -0.9), (-1.25, 0.5)] {
        let z = c64(re, im);
        let a = z.abs().0;
        assert!(close(a * a, z.square_abs().0, 1e-12));
    }
}

#[test]
fn arg_of_zero_is_exactly_zero() {
    assert_eq!(c64(0.0, 0.0).arg(), F64(0.0));
}

#[test]
fn ln_of_zero_is_exactly_minus_infinity() {
    assert_eq!(c64(0.0, 0.0).ln(), c64(f64::NEG_INFINITY, 0.0));
}

#[test]
fn powi_zero_exponent_gives_one() {
    assert_eq!(c64(0.0, 0.0).powi(0), c64(1.0, 0.0));
    assert_eq!(c64(3.0, 4.0).powi(0), c64(1.0, 0.0));
    assert_eq!(c64(-5.2, 0.9).powi(0), c64(1.0, 0.0));
}

#[test]
fn powi_survives_the_whole_exponent_range() {
    // The recursion depth is logarithmic in the magnitude, and the lowest
    // signed 64-bit exponent, whose negation does not exist, is taken
    // without overflow.
    assert_eq!(c64(1.0, 0.0).powi(i64::MIN), c64(1.0, 0.0));
    assert_eq!(c64(1.0, 0.0).powi(i64::MAX), c64(1.0, 0.0));
    assert_eq!(c64(2.0, 0.0).powi(-3), c64(0.125, 0.0));
}

#[test]
fn powi_matches_repeated_multiplication() {
    let z = c64(3.0, 4.0);
    let mut w = c64(1.0, 0.0);
    for _ in 0..6 {
        w = z.mul(w);
    }
    assert_eq!(z.powi(6), w);
    assert_eq!(z.powi(6), c64(11753.0, -10296.0));
}

#[test]
fn euler_identity_within_tolerance() {
    let e = c64(0.0, std::f64::consts::PI).exp();
    assert!(close_c(e, c64(-1.0, 0.0), 1e-15));
}

#[test]
fn expf_of_zero_base_is_zero() {
    assert_eq!(c64(2.0, 3.0).expf(F64(0.0)), c64(0.0, 0.0));
    assert_eq!(c64(2.0, 3.0).expf(F64(2.0)), c64(2.0, 3.0).mul_scalar(F64(2.0_f64.ln())).exp());
}

#[test]
fn log_and_logn_follow_ln() {
    let z = c64(100.0, 0.0);
    assert!(close_c(z.log(), c64(2.0, 0.0), 1e-12));
    assert!(close_c(z.logn(F64(100.0)), c64(1.0, 0.0), 1e-12));
    assert_eq!(z.ln_abs(), F64(10000.0_f64.ln() / 2.0));
}

#[test]
fn polarize_round_trip_within_tolerance() {
    for &(re, im) in &[(3.0, 4.0), (-2.5, 6.23), (0.5, -0.125)] {
        let z = c64(re, im);
        assert!(close_c(z.polarize().unpolarize(), z, 1e-12));
    }
    let p = ComplexPolar { radius: F64(2.0), angle: F64(1.0) };
    let q = p.unpolarize().polarize();
    assert!(close(q.radius.0, 2.0, 1e-12));
    assert!(close(q.angle.0, 1.0, 1e-12));
}

#[test]
fn polar_constructor_canonicalizes() {
    let pi = std::f64::consts::PI;
    let p = ComplexPolar::new(F64(-2.0), F64(0.0));
    assert_eq!(p.radius, F64(2.0));
    assert_eq!(p.angle, F64(pi));
    let q = ComplexPolar::new(F64(3.0), F64(7.0));
    assert_eq!(q.radius, F64(3.0));
    assert_eq!(q.angle, F64(7.0 % (2.0 * pi)));
    assert!(close_c(
        ComplexPolar::new(F64(-2.0), F64(0.0)).unpolarize(),
        c64(-2.0, 0.0),
        1e-12
    ));
}

#[test]
fn polar_products_and_quotients() {
    let a = ComplexPolar::new(F64(2.0), F64(0.5));
    let b = ComplexPolar::new(F64(3.0), F64(0.25));
    let p = a.mul(b);
    assert_eq!(p.radius, F64(6.0));
    assert_eq!(p.angle, F64(0.75));
    let q = a.div(b);
    assert_eq!(q.radius, F64(2.0 / 3.0));
    assert_eq!(q.angle, F64(0.25));
    assert_eq!(a.mul_scalar(F64(4.0)).radius, F64(8.0));
    assert_eq!(a.mul_scalar(F64(4.0)).angle, F64(0.5));
    assert_eq!(ComplexPolar::scalar_mul(F64(4.0), a).radius, F64(8.0));
    assert_eq!(a.div_scalar(F64(4.0)).radius, F64(0.5));
    assert_eq!(ComplexPolar::scalar_div(F64(4.0), a).radius, F64(0.5));
}

#[test]
fn polar_negation_flips_into_angle() {
    let pi = std::f64::consts::PI;
    let a = ComplexPolar::new(F64(2.0), F64(0.5));
    let n = a.neg();
    assert_eq!(n.radius, F64(2.0));
    assert_eq!(n.angle, F64((0.5 + pi) % (2.0 * pi)));
}

#[test]
fn polar_closed_forms() {
    let a = ComplexPolar::new(F64(4.0), F64(1.0));
    let s = a.sqrt();
    assert_eq!(s.radius, F64(2.0));
    assert_eq!(s.angle, F64(0.5));
    let i = a.inv();
    assert_eq!(i.radius, F64(0.25));
    assert_eq!(i.angle, F64(-1.0));
    let p = a.powf(F64(2.0));
    assert_eq!(p.radius, F64(16.0));
    assert_eq!(p.angle, F64(2.0));
    let e = a.exp();
    let viarect = a.unpolarize().exp().polarize();
    assert_eq!(e, viarect);
    assert_eq!(a.ln(), a.unpolarize().ln().polarize());
    assert_eq!(a.log(), a.unpolarize().log().polarize());
    assert_eq!(a.logn(F64(3.0)), a.unpolarize().logn(F64(3.0)).polarize());
    assert_eq!(a.powc(c64(2.0, 0.5)), a.unpolarize().powc(c64(2.0, 0.5)).polarize());
    let b = ComplexPolar::new(F64(1.5), F64(0.25));
    assert_eq!(a.powcp(b), a.unpolarize().powc(b.unpolarize()).polarize());
}

#[test]
fn in_place_variants_match_their_operators() {
    let z1 = c64(3.0, 4.0);
    let z2 = c64(-2.5, 6.23);

    let mut w = z1;
    w.add_assign(z2);
    assert_eq!(w, z1.add(z2));

    let mut w = z1;
    w.sub_assign(z2);
    assert_eq!(w, z1.sub(z2));

    let mut w = z1;
    w.mul_assign(z2);
    assert_eq!(w, z1.mul(z2));

    let mut w = z1;
    w.div_assign(z2);
    assert_eq!(w, z1.div(z2));

    let mut w = z1;
    w.add_assign_scalar(F64(5.0));
    assert_eq!(w, z1.add_scalar(F64(5.0)));

    let mut w = z1;
    w.sub_assign_scalar(F64(5.0));
    assert_eq!(w, z1.sub_scalar(F64(5.0)));

    let mut w = z1;
    w.mul_assign_scalar(F64(-0.5));
    assert_eq!(w, z1.mul_scalar(F64(-0.5)));

    let mut w = z1;
    w.div_assign_scalar(F64(-0.5));
    assert_eq!(w, z1.div_scalar(F64(-0.5)));

    let a = ComplexPolar::new(F64(2.0), F64(0.5));
    let b = ComplexPolar::new(F64(3.0), F64(0.25));

    let mut p = a;
    p.mul_assign(b);
    assert_eq!(p, a.mul(b));

    let mut p = a;
    p.div_assign(b);
    assert_eq!(p, a.div(b));

    let mut p = a;
    p.mul_assign_scalar(F64(4.0));
    assert_eq!(p, a.mul_scalar(F64(4.0)));

    let mut p = a;
    p.div_assign_scalar(F64(4.0));
    assert_eq!(p, a.div_scalar(F64(4.0)));
}

#[test]
fn complex_scenario_three_four() {
    // The worked 3 + 4i scenarios.
    let z = c64(3.0, 4.0);
    assert_eq!(z.abs(), F64(5.0));
    assert_eq!(z.square_abs(), F64(25.0));
    assert_eq!(z.inv(), c64(0.12, -0.16));
    assert_eq!(z.powi(6), c64(11753.0, -10296.0));
}
