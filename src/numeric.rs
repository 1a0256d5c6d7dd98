use vstd::prelude::*;

verus! {

/// The floating-point capabilities that every algorithm of this library is generic over.
///
/// Each executable operation is tied to a spec function of the same meaning, so that the
/// contracts of the algorithms can state exactly which sequence of operations produced a
/// result. The spec functions stand for whatever the implementing type computes (native
/// IEEE arithmetic for `f32` and `f64`). Their default bodies only let an implementation
/// written in plain Rust leave them out: code that is generic over the trait cannot see
/// those bodies, so to it every operation stays an unknown function of its operands.
pub trait FloatExt: Sized + Copy {
    open spec fn spec_zero() -> Self {
        arbitrary()
    }

    open spec fn spec_one() -> Self {
        arbitrary()
    }

    open spec fn spec_add(self, o: Self) -> Self {
        arbitrary()
    }

    open spec fn spec_sub(self, o: Self) -> Self {
        arbitrary()
    }

    open spec fn spec_mul(self, o: Self) -> Self {
        arbitrary()
    }

    open spec fn spec_div(self, o: Self) -> Self {
        arbitrary()
    }

    open spec fn spec_neg(self) -> Self {
        arbitrary()
    }

    open spec fn spec_abs(self) -> Self {
        arbitrary()
    }

    open spec fn spec_half(self) -> Self {
        arbitrary()
    }

    open spec fn spec_exp(self) -> Self {
        arbitrary()
    }

    open spec fn spec_ln(self) -> Self {
        arbitrary()
    }

    open spec fn spec_sqrt(self) -> Self {
        arbitrary()
    }

    open spec fn spec_signum(self) -> Self {
        arbitrary()
    }

    open spec fn spec_from_int(n: int) -> Self {
        arbitrary()
    }

    open spec fn spec_pi() -> Self {
        arbitrary()
    }

    open spec fn spec_powf(self, e: Self) -> Self {
        arbitrary()
    }

    open spec fn spec_powi(self, e: int) -> Self {
        arbitrary()
    }

    open spec fn spec_lt(self, o: Self) -> bool {
        arbitrary()
    }

    open spec fn spec_le(self, o: Self) -> bool {
        arbitrary()
    }

    open spec fn spec_eq(self, o: Self) -> bool {
        arbitrary()
    }

    fn zero() -> (r: Self)
        ensures
            r == Self::spec_zero(),
    ;

    fn one() -> (r: Self)
        ensures
            r == Self::spec_one(),
    ;

    fn add(self, o: Self) -> (r: Self)
        ensures
            r == self.spec_add(o),
    ;

    fn sub(self, o: Self) -> (r: Self)
        ensures
            r == self.spec_sub(o),
    ;

    fn mul(self, o: Self) -> (r: Self)
        ensures
            r == self.spec_mul(o),
    ;

    fn div(self, o: Self) -> (r: Self)
        ensures
            r == self.spec_div(o),
    ;

    fn neg(self) -> (r: Self)
        ensures
            r == self.spec_neg(),
    ;

    fn abs(self) -> (r: Self)
        ensures
            r == self.spec_abs(),
    ;

    /// The value divided by two, as used to narrow a bisection step.
    fn half(self) -> (r: Self)
        ensures
            r == self.spec_half(),
    ;

    fn exp(self) -> (r: Self)
        ensures
            r == self.spec_exp(),
    ;

    fn ln(self) -> (r: Self)
        ensures
            r == self.spec_ln(),
    ;

    fn sqrt(self) -> (r: Self)
        ensures
            r == self.spec_sqrt(),
    ;

    /// One with the sign of the value (for a zero: one with the zero's sign).
    fn signum(self) -> (r: Self)
        ensures
            r == self.spec_signum(),
    ;

    /// The integer `n`, rounded to the nearest value of the type.
    fn from_int(n: i64) -> (r: Self)
        ensures
            r == Self::spec_from_int(n as int),
    ;

    /// The ratio of a circle's circumference to its diameter.
    fn pi() -> (r: Self)
        ensures
            r == Self::spec_pi(),
    ;

    fn powf(self, e: Self) -> (r: Self)
        ensures
            r == self.spec_powf(e),
    ;

    fn powi(self, e: i32) -> (r: Self)
        ensures
            r == self.spec_powi(e as int),
    ;

    fn lt(&self, o: &Self) -> (r: bool)
        ensures
            r == self.spec_lt(*o),
    ;

    fn le(&self, o: &Self) -> (r: bool)
        ensures
            r == self.spec_le(*o),
    ;

    /// Numeric equality (which need not be identity: zeros of either sign are equal).
    fn eq(&self, o: &Self) -> (r: bool)
        ensures
            r == self.spec_eq(*o),
    ;
}

/// The value `n / d` as the type computes it from the two integers. Where both are exact in
/// the type, this is the decimal `n / d` correctly rounded, the same value as its literal.
pub open spec fn ratio_spec<F: FloatExt>(n: int, d: int) -> F {
    F::spec_from_int(n).spec_div(F::spec_from_int(d))
}

pub fn ratio<F: FloatExt>(n: i64, d: i64) -> (r: F)
    ensures
        r == ratio_spec::<F>(n as int, d as int),
{
    F::from_int(n).div(F::from_int(d))
}

/// The tolerance `1e-5` that the solvers stop at.
pub open spec fn accuracy_spec<F: FloatExt>() -> F {
    ratio_spec::<F>(1, 100_000)
}

pub fn accuracy<F: FloatExt>() -> (r: F)
    ensures
        r == accuracy_spec::<F>(),
{
    ratio(1, 100_000)
}

/// The ceiling `1e10` beyond which a bracket is no longer widened.
pub open spec fn high_value_spec<F: FloatExt>() -> F {
    F::spec_from_int(10_000_000_000)
}

pub fn high_value<F: FloatExt>() -> (r: F)
    ensures
        r == high_value_spec::<F>(),
{
    F::from_int(10_000_000_000)
}

/// The larger of `a` and `b`; `b` when neither is greater than the other.
pub open spec fn max_spec<F: FloatExt>(a: F, b: F) -> F {
    if b.spec_lt(a) { a } else { b }
}

/// The larger of `a` and `b`, as `max_spec` says.
pub fn max<F: FloatExt>(a: F, b: F) -> (m: F)
    ensures
        m == max_spec(a, b),
{
    if b.lt(&a) {
        a
    } else {
        b
    }
}

/// The number of rounds after which an iterative solver gives up.
pub const MAX_ITERATIONS: usize = 100;

} // verus!
