use vstd::prelude::*;
use crate::numeric::{FloatExt, ratio, ratio_spec};

verus! {

/// The polynomial of Abramowitz and Stegun 26.2.17 in `t`, by Horner's rule, with its
/// coefficients written as decimals over `1e9` and `1e7`.
pub open spec fn cdf_polynomial<F: FloatExt>(t: F) -> F {
    let a1 = ratio_spec::<F>(254_829_592, 1_000_000_000);
    let a2 = ratio_spec::<F>(-284_496_736, 1_000_000_000);
    let a3 = ratio_spec::<F>(1_421_413_741, 1_000_000_000);
    let a4 = ratio_spec::<F>(-1_453_152_027, 1_000_000_000);
    let a5 = ratio_spec::<F>(1_061_405_429, 1_000_000_000);
    a5.spec_mul(t).spec_add(a4).spec_mul(t).spec_add(a3).spec_mul(t).spec_add(a2).spec_mul(
        t,
    ).spec_add(a1).spec_mul(t)
}

/// Standard normal cumulative distribution at `x`, by the rational approximation
/// `N(x) = (1 + sign(x) * y) / 2`, where, with `z = |x| / sqrt(2)` and
/// `t = 1 / (1 + p * z)`, `y = 1 - poly(t) * exp(-z * z)`.
pub open spec fn cdf_spec<F: FloatExt>(x: F) -> F {
    let sign = x.spec_signum();
    let z = x.spec_abs().spec_div(F::spec_from_int(2).spec_sqrt());
    let p = ratio_spec::<F>(3_275_911, 10_000_000);
    let t = F::spec_one().spec_div(F::spec_one().spec_add(p.spec_mul(z)));
    let y = F::spec_one().spec_sub(
        cdf_polynomial(t).spec_mul(z.spec_neg().spec_mul(z).spec_exp()),
    );
    F::spec_one().spec_add(sign.spec_mul(y)).spec_half()
}

/// Standard normal density at `x`: `exp(-x * x / 2) / sqrt(2 * pi)`.
pub open spec fn pdf_spec<F: FloatExt>(x: F) -> F {
    x.spec_neg().spec_mul(x).spec_half().spec_exp().spec_div(
        F::spec_from_int(2).spec_mul(F::spec_pi()).spec_sqrt(),
    )
}

/// Standard normal cumulative distribution, accurate to about seven decimal digits.
pub fn standard_normal_cdf<F: FloatExt>(x: F) -> (c: F)
    ensures
        c == cdf_spec(x),
{
    let a1: F = ratio(254_829_592, 1_000_000_000);
    let a2: F = ratio(-284_496_736, 1_000_000_000);
    let a3: F = ratio(1_421_413_741, 1_000_000_000);
    let a4: F = ratio(-1_453_152_027, 1_000_000_000);
    let a5: F = ratio(1_061_405_429, 1_000_000_000);
    let p: F = ratio(3_275_911, 10_000_000);
    let one = F::one();
    let sign = x.signum();
    let z = x.abs().div(F::from_int(2).sqrt());
    let t = one.div(one.add(p.mul(z)));
    let poly = a5.mul(t).add(a4).mul(t).add(a3).mul(t).add(a2).mul(t).add(a1).mul(t);
    let y = one.sub(poly.mul(z.neg().mul(z).exp()));
    one.add(sign.mul(y)).half()
}

/// Standard normal probability density.
pub fn standard_normal_pdf<F: FloatExt>(x: F) -> (d: F)
    ensures
        d == pdf_spec(x),
{
    x.neg().mul(x).half().exp().div(F::from_int(2).mul(F::pi()).sqrt())
}

} // verus!
