use vstd::prelude::*;
use crate::numeric::{FloatExt, max, max_spec};

verus! {

/// Yield from a discount factor: `-(ln(dfact) / t)`.
pub open spec fn yield_from_discount_factor_spec<F: FloatExt>(dfact: F, t: F) -> F {
    dfact.spec_ln().spec_div(t).spec_neg()
}

/// Discount factor from a yield: `exp(-r * t)`.
pub open spec fn discount_factor_from_yield_spec<F: FloatExt>(r: F, t: F) -> F {
    r.spec_neg().spec_mul(t).spec_exp()
}

/// Forward rate over a period of length `t` from the discount factors at its two ends:
/// `ln(d1 / d2) / t`.
pub open spec fn forward_rate_from_discount_factors_spec<F: FloatExt>(d1: F, d2: F, t: F) -> F {
    d1.spec_div(d2).spec_ln().spec_div(t)
}

pub fn yield_from_discount_factor<F: FloatExt>(dfact: F, t: F) -> (y: F)
    ensures
        y == yield_from_discount_factor_spec(dfact, t),
{
    dfact.ln().div(t).neg()
}

pub fn discount_factor_from_yield<F: FloatExt>(r: F, t: F) -> (d: F)
    ensures
        d == discount_factor_from_yield_spec(r, t),
{
    r.neg().mul(t).exp()
}

pub fn forward_rate_from_discount_factors<F: FloatExt>(dfact_t1: F, dfact_t2: F, t: F) -> (f: F)
    ensures
        f == forward_rate_from_discount_factors_spec(dfact_t1, dfact_t2, t),
{
    dfact_t1.div(dfact_t2).ln().div(t)
}

/// Forward rate between `t1` and `t2` from yields seen at `t < t1 < t2`:
/// `(r2 * (t2 - t) - r1 * (t1 - t)) / (t2 - t1)`, where `r1` is the yield to `t1` and `r2`
/// the yield to `t2`.
pub fn forward_rate_from_yields<F: FloatExt>(r1: F, r2: F, t: F, t1: F, t2: F) -> (f: F)
    ensures
        f == r2.spec_mul(t2.spec_sub(t)).spec_sub(r1.spec_mul(t1.spec_sub(t))).spec_div(
            t2.spec_sub(t1),
        ),
{
    r2.mul(t2.sub(t)).sub(r1.mul(t1.sub(t))).div(t2.sub(t1))
}

/// Index of the first of `times[i..n]` that lies after `t`; `n` when none does.
pub open spec fn first_after<F: FloatExt>(times: Seq<F>, t: F, i: nat, n: nat) -> nat
    decreases n - i,
{
    if i >= n {
        n
    } else if t.spec_lt(times[i as int]) {
        i
    } else {
        first_after(times, t, i + 1, n)
    }
}

/// Yield at `t` from the samples: the first yield before the first time, the last one after
/// the last time, and in between the linear interpolation between the two samples around
/// `t`, the later one being the first sample after `t`.
pub open spec fn interpolated_spec<F: FloatExt>(t: F, times: Seq<F>, yields: Seq<F>) -> F {
    let n: nat = if times.len() <= yields.len() { times.len() } else { yields.len() };
    if n == 0 {
        F::spec_zero()
    } else if t.spec_lt(times[0]) {
        yields[0]
    } else if times[n - 1].spec_lt(t) {
        yields[n - 1]
    } else {
        let i = first_after(times, t, 0, n);
        if i >= n || i == 0 {
            yields[n - 1]
        } else {
            let ti = times[i as int];
            let lambda = ti.spec_sub(t).spec_div(ti.spec_sub(times[i - 1]));
            yields[i - 1].spec_sub(yields[i as int]).spec_mul(lambda).spec_add(yields[i as int])
        }
    }
}

/// Yield at `t` by linear interpolation between ordered observed times and yields; flat
/// beyond either end, zero with no sample.
pub fn yield_linearly_interpolated<F: FloatExt>(t: F, times: &[F], yields: &[F]) -> (y: F)
    ensures
        y == interpolated_spec(t, times@, yields@),
{
    let n: usize = if times.len() <= yields.len() { times.len() } else { yields.len() };
    if n == 0 {
        return F::zero();
    }
    if t.lt(&times[0]) {
        return yields[0];
    }
    if times[n - 1].lt(&t) {
        return yields[n - 1];
    }
    let mut i: usize = 0;
    while i < n && !t.lt(&times[i])
        invariant
            0 < n <= times@.len(),
            n <= yields@.len(),
            i <= n,
            first_after(times@, t, 0, n as nat) == first_after(times@, t, i as nat, n as nat),
        decreases n - i,
    {
        i = i + 1;
    }
    if i >= n || i == 0 {
        return yields[n - 1];
    }
    let ti = times[i];
    let lambda = ti.sub(t).div(ti.sub(times[i - 1]));
    yields[i - 1].sub(yields[i]).mul(lambda).add(yields[i])
}

/// A term structure of interest rates, given by its discount factors; the yields and the
/// forward rates follow from them.
pub trait TermStructure<F: FloatExt> {
    /// The discount factor that `discount_factor` returns; the default body only lets an
    /// implementation in plain Rust leave it out.
    open spec fn discount_spec(&self, t: F) -> F {
        arbitrary()
    }

    /// Discount factor for maturity `t`.
    fn discount_factor(&self, t: F) -> (d: F)
        ensures
            d == self.discount_spec(t),
    ;
}

/// Yield to maturity `t` on the term structure.
pub fn term_yield<F: FloatExt, T: TermStructure<F>>(ts: &T, t: F) -> (y: F)
    ensures
        y == yield_from_discount_factor_spec(ts.discount_spec(t), t),
{
    yield_from_discount_factor(ts.discount_factor(t), t)
}

/// Forward rate between maturities `t1` and `t2` on the term structure.
pub fn term_forward_rate<F: FloatExt, T: TermStructure<F>>(ts: &T, t1: F, t2: F) -> (f: F)
    ensures
        f == forward_rate_from_discount_factors_spec(
            ts.discount_spec(t1),
            ts.discount_spec(t2),
            t2.spec_sub(t1),
        ),
{
    let d1 = ts.discount_factor(t1);
    let d2 = ts.discount_factor(t2);
    forward_rate_from_discount_factors(d1, d2, t2.sub(t1))
}

/// A flat term structure: the same yield, floored at zero, for every maturity.
pub struct TermStructureFlat<F> {
    r: F,
}

impl<F: FloatExt> TermStructureFlat<F> {
    pub closed spec fn rate(&self) -> F {
        self.r
    }

    pub fn new(r: F) -> (ts: Self)
        ensures
            ts.rate() == r,
    {
        TermStructureFlat { r }
    }
}

impl<F: FloatExt> TermStructure<F> for TermStructureFlat<F> {
    open spec fn discount_spec(&self, t: F) -> F {
        discount_factor_from_yield_spec(max_spec(self.rate(), F::spec_zero()), t)
    }

    fn discount_factor(&self, t: F) -> (d: F) {
        discount_factor_from_yield(max(self.r, F::zero()), t)
    }
}

/// A term structure interpolated linearly between observed (time, yield) samples.
pub struct TermStructureInterpolated<F> {
    times: Vec<F>,
    yields: Vec<F>,
}

impl<F: FloatExt> TermStructureInterpolated<F> {
    pub closed spec fn sample_times(&self) -> Seq<F> {
        self.times@
    }

    pub closed spec fn sample_yields(&self) -> Seq<F> {
        self.yields@
    }

    pub fn new(times: Vec<F>, yields: Vec<F>) -> (ts: Self)
        ensures
            ts.sample_times() == times@,
            ts.sample_yields() == yields@,
    {
        TermStructureInterpolated { times, yields }
    }
}

impl<F: FloatExt> TermStructure<F> for TermStructureInterpolated<F> {
    open spec fn discount_spec(&self, t: F) -> F {
        discount_factor_from_yield_spec(interpolated_spec(t, self.sample_times(), self.sample_yields()), t)
    }

    fn discount_factor(&self, t: F) -> (d: F) {
        let y = yield_linearly_interpolated(t, self.times.as_slice(), self.yields.as_slice());
        discount_factor_from_yield(y, t)
    }
}

/// Over the first `k` cash flows, discounted on the term structure: their sum, and their sum
/// weighted by their times, both accumulated from zero.
pub open spec fn term_sums<F: FloatExt, T: TermStructure<F>>(
    ts: T,
    times: Seq<F>,
    cash_flows: Seq<F>,
    k: nat,
) -> (F, F)
    decreases k,
{
    if k == 0 {
        (F::spec_zero(), F::spec_zero())
    } else {
        let (p, w) = term_sums(ts, times, cash_flows, (k - 1) as nat);
        let t = times[k - 1];
        let discounted = cash_flows[k - 1].spec_mul(ts.discount_spec(t));
        (p.spec_add(discounted), w.spec_add(t.spec_mul(discounted)))
    }
}

/// Number of (time, cash flow) pairs in two slices.
pub open spec fn flow_count<F>(times: Seq<F>, cash_flows: Seq<F>) -> nat {
    if times.len() <= cash_flows.len() { times.len() } else { cash_flows.len() }
}

/// Price of a bond: its cash flows discounted on the term structure.
pub fn bonds_price<F: FloatExt, T: TermStructure<F>>(times: &[F], cash_flows: &[F], d: &T) -> (p: F)
    ensures
        p == term_sums(*d, times@, cash_flows@, flow_count(times@, cash_flows@)).0,
{
    let (p, _) = discounted_sums(times, cash_flows, d);
    p
}

/// Duration of a bond: the time-weighted average of its cash flows discounted on the term
/// structure.
pub fn bonds_duration<F: FloatExt, T: TermStructure<F>>(times: &[F], cash_flows: &[F], d: &T) -> (dur: F)
    ensures
        dur == term_sums(*d, times@, cash_flows@, flow_count(times@, cash_flows@)).1.spec_div(
            term_sums(*d, times@, cash_flows@, flow_count(times@, cash_flows@)).0,
        ),
{
    let (p, w) = discounted_sums(times, cash_flows, d);
    w.div(p)
}

fn discounted_sums<F: FloatExt, T: TermStructure<F>>(times: &[F], cash_flows: &[F], d: &T) -> (res: (F, F))
    ensures
        res == term_sums(*d, times@, cash_flows@, flow_count(times@, cash_flows@)),
{
    let n: usize = if times.len() <= cash_flows.len() { times.len() } else { cash_flows.len() };
    let mut p = F::zero();
    let mut w = F::zero();
    let mut i: usize = 0;
    while i < n
        invariant
            n == flow_count(times@, cash_flows@),
            n <= times@.len(),
            n <= cash_flows@.len(),
            i <= n,
            (p, w) == term_sums(*d, times@, cash_flows@, i as nat),
        decreases n - i,
    {
        let t = times[i];
        let discounted = cash_flows[i].mul(d.discount_factor(t));
        p = p.add(discounted);
        w = w.add(t.mul(discounted));
        i = i + 1;
    }
    (p, w)
}

} // verus!
