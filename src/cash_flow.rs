use vstd::prelude::*;
use crate::numeric::FloatExt;

verus! {

/// Number of (time, amount) pairs that a schedule given as two slices holds.
pub open spec fn pair_count<F>(times: Seq<F>, amounts: Seq<F>) -> nat {
    if times.len() <= amounts.len() { times.len() } else { amounts.len() }
}

/// Discrete compounding: sum over the first `k` pairs of `amount / (1 + r)^time`,
/// accumulated from zero in schedule order.
pub open spec fn pv_discrete_spec<F: FloatExt>(times: Seq<F>, amounts: Seq<F>, r: F, k: nat) -> F
    decreases k,
{
    if k == 0 {
        F::spec_zero()
    } else {
        let acc = F::spec_one().spec_add(r);
        let prev = pv_discrete_spec(times, amounts, r, (k - 1) as nat);
        prev.spec_add(amounts[k - 1].spec_div(acc.spec_powf(times[k - 1])))
    }
}

/// Continuous compounding: sum over the first `k` pairs of `amount * exp(-(r * time))`,
/// accumulated from zero in schedule order.
pub open spec fn pv_spec<F: FloatExt>(times: Seq<F>, amounts: Seq<F>, r: F, k: nat) -> F
    decreases k,
{
    if k == 0 {
        F::spec_zero()
    } else {
        let prev = pv_spec(times, amounts, r, (k - 1) as nat);
        prev.spec_add(amounts[k - 1].spec_mul(r.spec_mul(times[k - 1]).spec_neg().spec_exp()))
    }
}

/// Present value of the whole schedule with continuous compounding.
pub open spec fn present_value<F: FloatExt>(times: Seq<F>, amounts: Seq<F>, r: F) -> F {
    pv_spec(times, amounts, r, pair_count(times, amounts))
}

/// Present value of the cash flows with discrete compounding at rate `r` per period.
/// Pairs beyond the shorter of the two slices are ignored.
pub fn cash_flow_pv_discrete<F: FloatExt>(times: &[F], amounts: &[F], r: &F) -> (v: F)
    ensures
        v == pv_discrete_spec(times@, amounts@, *r, pair_count(times@, amounts@)),
{
    let n: usize = if times.len() <= amounts.len() { times.len() } else { amounts.len() };
    let acc = F::one().add(*r);
    let mut total = F::zero();
    let mut i: usize = 0;
    while i < n
        invariant
            n == pair_count(times@, amounts@),
            n <= times@.len(),
            n <= amounts@.len(),
            i <= n,
            acc == F::spec_one().spec_add(*r),
            total == pv_discrete_spec(times@, amounts@, *r, i as nat),
        decreases n - i,
    {
        total = total.add(amounts[i].div(acc.powf(times[i])));
        i = i + 1;
    }
    total
}

/// Present value of the cash flows with continuously compounded rate `r`.
/// Pairs beyond the shorter of the two slices are ignored.
pub fn cash_flow_pv<F: FloatExt>(times: &[F], amounts: &[F], r: &F) -> (v: F)
    ensures
        v == present_value(times@, amounts@, *r),
{
    let n: usize = if times.len() <= amounts.len() { times.len() } else { amounts.len() };
    let mut total = F::zero();
    let mut i: usize = 0;
    while i < n
        invariant
            n == pair_count(times@, amounts@),
            n <= times@.len(),
            n <= amounts@.len(),
            i <= n,
            total == pv_spec(times@, amounts@, *r, i as nat),
        decreases n - i,
    {
        total = total.add(amounts[i].mul(r.mul(times[i]).neg().exp()));
        i = i + 1;
    }
    total
}

/// Width of the bisection step after it has been halved `k` times.
pub open spec fn halved<F: FloatExt>(dx: F, k: nat) -> F
    decreases k,
{
    if k == 0 {
        dx
    } else {
        halved(dx, (k - 1) as nat).spec_half()
    }
}

/// The bisection from working endpoint `rtb` with displacement `dx` and `left` rounds to go.
///
/// Each round halves the displacement and evaluates the midpoint `rtb + dx`. It stops with
/// that midpoint once `|pv(mid)| < accuracy` or `|dx| < accuracy`; otherwise the working
/// endpoint moves to the midpoint exactly when `pv(mid) < 0`. No round left: no root.
pub open spec fn bisect_spec<F: FloatExt>(
    times: Seq<F>,
    amounts: Seq<F>,
    accuracy: F,
    rtb: F,
    dx: F,
    left: nat,
) -> Option<F>
    decreases left,
{
    if left == 0 {
        None
    } else {
        let step = dx.spec_half();
        let mid = rtb.spec_add(step);
        let f_mid = present_value(times, amounts, mid);
        if f_mid.spec_abs().spec_lt(accuracy) || step.spec_abs().spec_lt(accuracy) {
            Some(mid)
        } else {
            let next = if f_mid.spec_lt(F::spec_zero()) { mid } else { rtb };
            bisect_spec(times, amounts, accuracy, next, step, (left - 1) as nat)
        }
    }
}

/// Whether the objective takes the same strict sign at both ends: `pv(lo) * pv(hi) > 0`.
pub open spec fn same_sign<F: FloatExt>(times: Seq<F>, amounts: Seq<F>, lo: F, hi: F) -> bool {
    F::spec_zero().spec_lt(
        present_value(times, amounts, lo).spec_mul(present_value(times, amounts, hi)),
    )
}

/// The endpoint that the bisection starts from: the end whose present value is not positive.
pub open spec fn irr_start<F: FloatExt>(times: Seq<F>, amounts: Seq<F>, lo: F, hi: F) -> F {
    if F::spec_zero().spec_lt(present_value(times, amounts, lo)) { hi } else { lo }
}

/// The displacement from the start endpoint to the other end of the bracket.
pub open spec fn irr_width<F: FloatExt>(times: Seq<F>, amounts: Seq<F>, lo: F, hi: F) -> F {
    if F::spec_zero().spec_lt(present_value(times, amounts, lo)) {
        lo.spec_sub(hi)
    } else {
        hi.spec_sub(lo)
    }
}

/// Internal rate of return found by bisection over the bracket `lo..hi`.
pub open spec fn irr_spec<F: FloatExt>(
    times: Seq<F>,
    amounts: Seq<F>,
    accuracy: F,
    max_iteration: nat,
    lo: F,
    hi: F,
) -> Option<F> {
    if same_sign(times, amounts, lo, hi) {
        None
    } else {
        bisect_spec(
            times,
            amounts,
            accuracy,
            irr_start(times, amounts, lo, hi),
            irr_width(times, amounts, lo, hi),
            max_iteration,
        )
    }
}

/// Internal rate of return: a rate at which the continuously compounded present value of the
/// schedule vanishes, searched by bisection inside `bucket`.
///
/// The search starts from the end of the bucket whose present value is not positive and
/// tracks only that end: each round halves the step, tries the point one step away, and
/// moves there when the present value is negative. It returns that point once its present
/// value, or the step, is below `accuracy` in absolute value.
///
/// Returns `None` when the present value has the same strict sign at both ends of the bucket,
/// or when `max_iteration` rounds pass without meeting the accuracy.
pub fn cash_flow_irr<F: FloatExt>(
    times: &[F],
    amounts: &[F],
    accuracy: &F,
    max_iteration: usize,
    bucket: &std::ops::Range<F>,
) -> (root: Option<F>)
    ensures
        root == irr_spec(times@, amounts@, *accuracy, max_iteration as nat, bucket.start, bucket.end),
{
    let mut x1 = bucket.start;
    let mut x2 = bucket.end;
    let mut f1 = cash_flow_pv(times, amounts, &x1);
    let f2 = cash_flow_pv(times, amounts, &x2);
    let zero = F::zero();
    if zero.lt(&f1.mul(f2)) {
        return None;
    }
    if zero.lt(&f1) {
        let t = x1;
        x1 = x2;
        x2 = t;
    }
    let mut rtb = x1;
    let mut dx = x2.sub(x1);
    let ghost start = rtb;
    let ghost width = dx;
    let mut i: usize = 0;
    while i < max_iteration
        invariant
            i <= max_iteration,
            zero == F::spec_zero(),
            irr_spec(times@, amounts@, *accuracy, max_iteration as nat, bucket.start, bucket.end)
                == bisect_spec(times@, amounts@, *accuracy, start, width, max_iteration as nat),
            bisect_spec(times@, amounts@, *accuracy, start, width, max_iteration as nat)
                == bisect_spec(times@, amounts@, *accuracy, rtb, dx, (max_iteration - i) as nat),
        decreases max_iteration - i,
    {
        dx = dx.half();
        let x_mid = rtb.add(dx);
        let f_mid = cash_flow_pv(times, amounts, &x_mid);
        if f_mid.abs().lt(accuracy) || dx.abs().lt(accuracy) {
            return Some(x_mid);
        }
        if f_mid.lt(&zero) {
            rtb = x_mid;
        }
        i = i + 1;
    }
    None
}

proof fn lemma_halved_shift<F: FloatExt>(dx: F, k: nat)
    ensures
        halved(dx.spec_half(), k) == halved(dx, k + 1),
    decreases k,
{
    assert(halved(dx, 0) == dx);
    if k > 0 {
        lemma_halved_shift(dx, (k - 1) as nat);
        assert(halved(dx.spec_half(), k) == halved(dx.spec_half(), (k - 1) as nat).spec_half());
    }
}

proof fn lemma_bisect_converged<F: FloatExt>(
    times: Seq<F>,
    amounts: Seq<F>,
    accuracy: F,
    rtb: F,
    dx: F,
    left: nat,
    x: F,
)
    requires
        bisect_spec(times, amounts, accuracy, rtb, dx, left) == Some(x),
    ensures
        present_value(times, amounts, x).spec_abs().spec_lt(accuracy) || exists|k: nat|
            1 <= k <= left && (#[trigger] halved(dx, k)).spec_abs().spec_lt(accuracy),
    decreases left,
{
    let step = dx.spec_half();
    let mid = rtb.spec_add(step);
    let f_mid = present_value(times, amounts, mid);
    assert(halved(dx, 0) == dx);
    assert(halved(dx, 1) == step);
    if f_mid.spec_abs().spec_lt(accuracy) || step.spec_abs().spec_lt(accuracy) {
    } else {
        let next = if f_mid.spec_lt(F::spec_zero()) { mid } else { rtb };
        lemma_bisect_converged(times, amounts, accuracy, next, step, (left - 1) as nat, x);
        if !present_value(times, amounts, x).spec_abs().spec_lt(accuracy) {
            let k = choose|k: nat|
                1 <= k <= left - 1 && (#[trigger] halved(step, k)).spec_abs().spec_lt(accuracy);
            lemma_halved_shift(dx, k);
            assert(halved(dx, k + 1).spec_abs().spec_lt(accuracy));
        }
    }
}

/// A rate reported by the bisection is a root within the accuracy, or else one of the steps
/// of the bisection (the bracket's width halved `k` times, for some `k` from one to
/// `max_iteration`) was below the accuracy in absolute value.
pub proof fn lemma_irr_converged<F: FloatExt>(
    times: Seq<F>,
    amounts: Seq<F>,
    accuracy: F,
    max_iteration: nat,
    lo: F,
    hi: F,
    x: F,
)
    requires
        irr_spec(times, amounts, accuracy, max_iteration, lo, hi) == Some(x),
    ensures
        present_value(times, amounts, x).spec_abs().spec_lt(accuracy) || exists|k: nat|
            1 <= k <= max_iteration && (#[trigger] halved(
                irr_width(times, amounts, lo, hi),
                k,
            )).spec_abs().spec_lt(accuracy),
{
    lemma_bisect_converged(
        times,
        amounts,
        accuracy,
        irr_start(times, amounts, lo, hi),
        irr_width(times, amounts, lo, hi),
        max_iteration,
        x,
    );
}

/// When the present value has the same strict sign at both ends of the bracket, the
/// bisection reports no root, whatever the accuracy and the number of rounds.
pub proof fn lemma_irr_rejects_bracket<F: FloatExt>(
    times: Seq<F>,
    amounts: Seq<F>,
    accuracy: F,
    max_iteration: nat,
    lo: F,
    hi: F,
)
    requires
        same_sign(times, amounts, lo, hi),
    ensures
        irr_spec(times, amounts, accuracy, max_iteration, lo, hi) is None,
{
}

/// Whether `a` and `b` differ in sign.
pub open spec fn sign_differs<F: FloatExt>(a: F, b: F) -> bool {
    !a.spec_signum().spec_eq(b.spec_signum())
}

/// Number of places among the first `k` amounts where an amount differs in sign from the one
/// before it.
pub open spec fn sign_changes<F: FloatExt>(amounts: Seq<F>, k: nat) -> nat
    decreases k,
{
    if k <= 1 {
        0
    } else {
        sign_changes(amounts, (k - 1) as nat) + if sign_differs(amounts[k - 1], amounts[k - 2]) {
            1nat
        } else {
            0nat
        }
    }
}

/// Cumulative cash flow after the first `k` amounts (`k >= 1`), summed from the first one.
pub open spec fn cumulative<F: FloatExt>(amounts: Seq<F>, k: nat) -> F
    decreases k,
{
    if k <= 1 {
        amounts[0]
    } else {
        cumulative(amounts, (k - 1) as nat).spec_add(amounts[k - 1])
    }
}

/// Number of places among the first `k` amounts where the cumulative cash flow changes sign.
pub open spec fn cumulative_sign_changes<F: FloatExt>(amounts: Seq<F>, k: nat) -> nat
    decreases k,
{
    if k <= 1 {
        0
    } else {
        cumulative_sign_changes(amounts, (k - 1) as nat) + if sign_differs(
            cumulative(amounts, k),
            cumulative(amounts, (k - 1) as nat),
        ) {
            1nat
        } else {
            0nat
        }
    }
}

/// Whether the schedule is known to have a single internal rate of return: the amounts
/// change sign exactly once, or more often but with the cumulative cash flow changing sign
/// at most once.
pub open spec fn unique_irr_spec<F: FloatExt>(times: Seq<F>, amounts: Seq<F>) -> bool {
    let n = pair_count(times, amounts);
    let changes = sign_changes(amounts, n);
    if changes == 0 {
        false
    } else if changes == 1 {
        true
    } else {
        cumulative_sign_changes(amounts, n) <= 1
    }
}

/// Whether the schedule is known to have a single internal rate of return (a sufficient
/// test: the amounts change sign once, or the cumulative cash flow does at most once).
pub fn is_unique_irr<F: FloatExt>(times: &[F], amounts: &[F]) -> (unique: bool)
    ensures
        unique == unique_irr_spec(times@, amounts@),
{
    let n: usize = if times.len() <= amounts.len() { times.len() } else { amounts.len() };
    let mut changes: usize = 0;
    let mut i: usize = 1;
    while i < n
        invariant
            n == pair_count(times@, amounts@),
            n <= amounts@.len(),
            1 <= i,
            i <= n || n == 0,
            changes == sign_changes(amounts@, i as nat),
            changes <= i,
        decreases n - i,
    {
        if !amounts[i].signum().eq(&amounts[i - 1].signum()) {
            changes = changes + 1;
        }
        i = i + 1;
    }
    if n == 0 {
        return false;
    }
    if changes == 0 {
        return false;
    }
    if changes == 1 {
        return true;
    }
    let mut cumulative_changes: usize = 0;
    let mut sum = amounts[0];
    let mut j: usize = 1;
    while j < n
        invariant
            n == pair_count(times@, amounts@),
            n <= amounts@.len(),
            1 <= j <= n,
            sum == cumulative(amounts@, j as nat),
            cumulative_changes == cumulative_sign_changes(amounts@, j as nat),
            cumulative_changes <= j,
        decreases n - j,
    {
        let old_sum = sum;
        sum = sum.add(amounts[j]);
        if !sum.signum().eq(&old_sum.signum()) {
            cumulative_changes = cumulative_changes + 1;
        }
        j = j + 1;
    }
    cumulative_changes <= 1
}

} // verus!
