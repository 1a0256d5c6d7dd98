use vstd::prelude::*;
use crate::cash_flow::{
    cash_flow_irr,
    cash_flow_pv,
    cash_flow_pv_discrete,
    irr_spec,
    pair_count,
    present_value,
    pv_discrete_spec,
};
use crate::numeric::{FloatExt, MAX_ITERATIONS, accuracy, accuracy_spec, high_value, high_value_spec};

verus! {

/// Price of a bond with continuous compounding: the present value of its cash flows
/// (coupons and principal).
pub fn price<F: FloatExt>(times: &[F], amounts: &[F], r: F) -> (p: F)
    ensures
        p == present_value(times@, amounts@, r),
{
    cash_flow_pv(times, amounts, &r)
}

/// Price of a bond with discrete compounding: the present value of its cash flows.
pub fn price_discrete<F: FloatExt>(times: &[F], amounts: &[F], r: F) -> (p: F)
    ensures
        p == pv_discrete_spec(times@, amounts@, r, pair_count(times@, amounts@)),
{
    cash_flow_pv_discrete(times, amounts, &r)
}

/// Upper end of the bracket for the yield: from `top`, doubled while the bond's value there
/// still exceeds `bond_price`; `None` once it passes the ceiling or after `left` doublings.
pub open spec fn bracket_top_spec<F: FloatExt>(
    times: Seq<F>,
    amounts: Seq<F>,
    bond_price: F,
    top: F,
    left: nat,
) -> Option<F>
    decreases left,
{
    if !bond_price.spec_lt(present_value(times, amounts, top)) {
        Some(top)
    } else if left == 0 {
        None
    } else {
        let next = top.spec_mul(F::spec_from_int(2));
        if high_value_spec::<F>().spec_lt(next) {
            None
        } else {
            bracket_top_spec(times, amounts, bond_price, next, (left - 1) as nat)
        }
    }
}

/// Yield to maturity: the internal rate of return of the schedule preceded by the price paid
/// today, `-bond_price` at time zero, searched in `0..top` for the bracket's upper end `top`.
pub open spec fn yield_spec<F: FloatExt>(times: Seq<F>, amounts: Seq<F>, bond_price: F) -> Option<
    F,
> {
    match bracket_top_spec(times, amounts, bond_price, F::spec_one(), MAX_ITERATIONS as nat) {
        None => None,
        Some(top) => irr_spec(
            seq![F::spec_zero()] + times,
            seq![bond_price.spec_neg()] + amounts,
            accuracy_spec::<F>(),
            MAX_ITERATIONS as nat,
            F::spec_zero(),
            top,
        ),
    }
}

fn bracket_top<F: FloatExt>(times: &[F], amounts: &[F], bond_price: F) -> (top: Option<F>)
    ensures
        top == bracket_top_spec(times@, amounts@, bond_price, F::spec_one(), MAX_ITERATIONS as nat),
{
    let two = F::from_int(2);
    let ceiling: F = high_value();
    let mut top = F::one();
    let mut left: usize = MAX_ITERATIONS;
    while bond_price.lt(&cash_flow_pv(times, amounts, &top))
        invariant
            two == F::spec_from_int(2),
            ceiling == high_value_spec::<F>(),
            bracket_top_spec(times@, amounts@, bond_price, F::spec_one(), MAX_ITERATIONS as nat)
                == bracket_top_spec(times@, amounts@, bond_price, top, left as nat),
        decreases left,
    {
        if left == 0 {
            return None;
        }
        top = top.mul(two);
        if ceiling.lt(&top) {
            return None;
        }
        left = left - 1;
    }
    Some(top)
}

fn prepend<F: FloatExt>(first: F, rest: &[F]) -> (v: Vec<F>)
    ensures
        v@ == seq![first] + rest@,
{
    let mut v: Vec<F> = Vec::new();
    v.push(first);
    let mut i: usize = 0;
    while i < rest.len()
        invariant
            i <= rest@.len(),
            v@ == seq![first] + rest@.subrange(0, i as int),
        decreases rest@.len() - i,
    {
        v.push(rest[i]);
        i = i + 1;
        assert(rest@.subrange(0, i as int) == rest@.subrange(0, i - 1 as int).push(rest@[i - 1]));
    }
    assert(rest@.subrange(0, rest@.len() as int) == rest@);
    v
}

/// Yield to maturity: the internal rate of return once the price of the bond is counted as a
/// negative cash flow today. The bracket `0..top` is found by doubling `top` from one while
/// the bond's value at `top` exceeds its price; `None` when no bracket below the ceiling is
/// found, or the bisection reports no root.
pub fn yield_to_maturity<F: FloatExt>(times: &[F], amounts: &[F], bond_price: F) -> (y: Option<F>)
    ensures
        y == yield_spec(times@, amounts@, bond_price),
{
    let top = match bracket_top(times, amounts, bond_price) {
        Some(top) => top,
        None => {
            return None;
        },
    };
    let zero = F::zero();
    let all_times = prepend(zero, times);
    let all_amounts = prepend(bond_price.neg(), amounts);
    let acc: F = accuracy();
    let bucket = std::ops::Range { start: zero, end: top };
    cash_flow_irr(all_times.as_slice(), all_amounts.as_slice(), &acc, MAX_ITERATIONS, &bucket)
}

/// Over the first `k` cash flows: the discounted cash flows `a * exp(-(r * t))` summed, and
/// the same weighted by their times, both accumulated from zero.
pub open spec fn duration_sums<F: FloatExt>(times: Seq<F>, amounts: Seq<F>, r: F, k: nat) -> (F, F)
    decreases k,
{
    if k == 0 {
        (F::spec_zero(), F::spec_zero())
    } else {
        let (p, w) = duration_sums(times, amounts, r, (k - 1) as nat);
        let t = times[k - 1];
        let discounted = amounts[k - 1].spec_mul(r.spec_mul(t).spec_neg().spec_exp());
        (p.spec_add(discounted), w.spec_add(t.spec_mul(discounted)))
    }
}

/// Duration: the time-weighted average of the discounted cash flows at rate `r`.
pub open spec fn duration_spec<F: FloatExt>(times: Seq<F>, amounts: Seq<F>, r: F) -> F {
    let (p, w) = duration_sums(times, amounts, r, pair_count(times, amounts));
    w.spec_div(p)
}

/// Duration of the bond, the weighted average maturity of its cash flows, at rate `r`.
pub fn duration<F: FloatExt>(times: &[F], amounts: &[F], r: F) -> (d: F)
    ensures
        d == duration_spec(times@, amounts@, r),
{
    let n: usize = if times.len() <= amounts.len() { times.len() } else { amounts.len() };
    let mut p = F::zero();
    let mut w = F::zero();
    let mut i: usize = 0;
    while i < n
        invariant
            n == pair_count(times@, amounts@),
            n <= times@.len(),
            n <= amounts@.len(),
            i <= n,
            (p, w) == duration_sums(times@, amounts@, r, i as nat),
        decreases n - i,
    {
        let t = times[i];
        let discounted = amounts[i].mul(r.mul(t).neg().exp());
        p = p.add(discounted);
        w = w.add(t.mul(discounted));
        i = i + 1;
    }
    w.div(p)
}

/// Macaulay duration: the duration at the bond's yield to maturity.
pub fn duration_macaulay<F: FloatExt>(times: &[F], amounts: &[F], bond_price: F) -> (d: Option<F>)
    ensures
        d == (match yield_spec(times@, amounts@, bond_price) {
            Some(y) => Some(duration_spec(times@, amounts@, y)),
            None => None,
        }),
{
    match yield_to_maturity(times, amounts, bond_price) {
        Some(y) => Some(duration(times, amounts, y)),
        None => None,
    }
}

/// Modified duration: the duration at rate `r` divided by one plus the yield to maturity.
pub fn duration_modified<F: FloatExt>(times: &[F], amounts: &[F], r: F, bond_price: F) -> (d:
    Option<F>)
    ensures
        d == (match yield_spec(times@, amounts@, bond_price) {
            Some(y) => Some(duration_spec(times@, amounts@, r).spec_div(F::spec_one().spec_add(y))),
            None => None,
        }),
{
    let d = duration(times, amounts, r);
    match yield_to_maturity(times, amounts, bond_price) {
        Some(y) => Some(d.div(F::one().add(y))),
        None => None,
    }
}

/// Sum over the first `k` cash flows of `a * t * t * exp(-(y * t))`, from zero.
pub open spec fn convexity_spec<F: FloatExt>(times: Seq<F>, amounts: Seq<F>, y: F, k: nat) -> F
    decreases k,
{
    if k == 0 {
        F::spec_zero()
    } else {
        let t = times[k - 1];
        convexity_spec(times, amounts, y, (k - 1) as nat).spec_add(
            amounts[k - 1].spec_mul(t).spec_mul(t).spec_mul(y.spec_mul(t).spec_neg().spec_exp()),
        )
    }
}

/// Convexity: the curvature that the duration's linear approximation leaves out.
pub fn convexity<F: FloatExt>(times: &[F], amounts: &[F], y: F) -> (c: F)
    ensures
        c == convexity_spec(times@, amounts@, y, pair_count(times@, amounts@)),
{
    let n: usize = if times.len() <= amounts.len() { times.len() } else { amounts.len() };
    let mut total = F::zero();
    let mut i: usize = 0;
    while i < n
        invariant
            n == pair_count(times@, amounts@),
            n <= times@.len(),
            n <= amounts@.len(),
            i <= n,
            total == convexity_spec(times@, amounts@, y, i as nat),
        decreases n - i,
    {
        let t = times[i];
        total = total.add(amounts[i].mul(t).mul(t).mul(y.mul(t).neg().exp()));
        i = i + 1;
    }
    total
}

} // verus!
