use vstd::prelude::*;
use crate::black_scholes::Call;
use crate::numeric::{FloatExt, max, max_spec};

verus! {

/// Why a binomial lattice cannot be priced.
#[derive(Debug, Clone, Copy, PartialEq, Eq)]
pub enum LatticeError {
    /// The risk-neutral up-probability `(exp(r) - d) / (u - d)` lies outside `[0, 1]`
    /// (or is not comparable at all): the up, down and rate figures admit arbitrage.
    InvalidParameters,
    /// The number of periods does not fit the exponent of a power (`i32`).
    TooManyPeriods,
}

/// Risk-neutral probability of an up move over one period.
pub open spec fn up_probability<F: FloatExt>(r: F, u: F, d: F) -> F {
    r.spec_exp().spec_sub(d).spec_div(u.spec_sub(d))
}

/// Whether `p` lies in `[0, 1]`.
pub open spec fn is_probability<F: FloatExt>(p: F) -> bool {
    F::spec_zero().spec_le(p) && p.spec_le(F::spec_one())
}

/// Price of the underlying at terminal node `i` of an `n`-period lattice: the lowest node is
/// `s * d^n`, and each next one up is the previous one times `u / d`.
pub open spec fn terminal_price<F: FloatExt>(s: F, u: F, d: F, n: nat, i: nat) -> F
    decreases i,
{
    if i == 0 {
        s.spec_mul(d.spec_powi(n as int))
    } else {
        terminal_price(s, u, d, n, (i - 1) as nat).spec_mul(u.spec_div(d))
    }
}

/// Value of the European call at node `i` after `step` of the `n` periods: the payoff
/// `max(0, price - k)` at the terminal nodes, and before that the risk-neutral expectation
/// of the two successor nodes discounted by `exp(r)`.
pub open spec fn node_value<F: FloatExt>(
    s: F,
    k: F,
    r: F,
    u: F,
    d: F,
    n: nat,
    step: nat,
    i: nat,
) -> F
    decreases n - step,
{
    if step >= n {
        max_spec(F::spec_zero(), terminal_price(s, u, d, n, i).spec_sub(k))
    } else {
        let p_up = up_probability(r, u, d);
        let p_down = F::spec_one().spec_sub(p_up);
        p_up.spec_mul(node_value(s, k, r, u, d, n, step + 1, i + 1)).spec_add(
            p_down.spec_mul(node_value(s, k, r, u, d, n, step + 1, i)),
        ).spec_div(r.spec_exp())
    }
}

/// Prices of the underlying at the `n + 1` terminal nodes of an `n`-period lattice, from the
/// lowest up.
pub fn terminal_prices<F: FloatExt>(s: &F, u: &F, d: &F, n: usize) -> (prices: Vec<F>)
    requires
        n <= i32::MAX,
    ensures
        prices@.len() == n + 1,
        forall|i: int|
            0 <= i <= n ==> #[trigger] prices@[i] == terminal_price(*s, *u, *d, n as nat, i as nat),
{
    let mut prices: Vec<F> = Vec::new();
    prices.push(s.mul(d.powi(n as i32)));
    let ratio = u.div(*d);
    let mut i: usize = 1;
    while i <= n
        invariant
            1 <= i <= n + 1,
            n <= i32::MAX,
            prices@.len() == i,
            ratio == u.spec_div(*d),
            forall|j: int|
                0 <= j < i ==> #[trigger] prices@[j] == terminal_price(
                    *s,
                    *u,
                    *d,
                    n as nat,
                    j as nat,
                ),
        decreases n + 1 - i,
    {
        let next = prices[i - 1].mul(ratio);
        prices.push(next);
        i = i + 1;
    }
    prices
}

/// Outcome of pricing a European call on an `n`-period lattice: with no period, the payoff
/// `max(0, s - k)` undiscounted; otherwise an error when the up-probability is not in
/// `[0, 1]`, else the value at the root node.
pub open spec fn lattice_outcome<F: FloatExt>(s: F, k: F, r: F, u: F, d: F, n: nat) -> Result<
    F,
    LatticeError,
> {
    if n == 0 {
        Ok(max_spec(F::spec_zero(), s.spec_sub(k)))
    } else if !is_probability(up_probability(r, u, d)) {
        Err(LatticeError::InvalidParameters)
    } else {
        Ok(node_value(s, k, r, u, d, n, 0, 0))
    }
}

/// With no period the price is the undiscounted payoff `max(0, s - k)`, whatever the rate and
/// the up and down factors.
pub proof fn lemma_zero_periods_is_payoff<F: FloatExt>(s: F, k: F, r: F, u: F, d: F)
    ensures
        lattice_outcome(s, k, r, u, d, 0) == Ok::<F, LatticeError>(
            max_spec(F::spec_zero(), s.spec_sub(k)),
        ),
{
}

/// Price of a European call on a recombining binomial lattice.
///
/// `s`: spot price, `k`: strike, `r`: interest rate per period, `u` and `d`: up and down
/// factors, `n`: number of periods. Fails when the risk-neutral up-probability is not in
/// `[0, 1]`; with no period the price is the undiscounted payoff `max(0, s - k)`.
/// Backward induction weighs the upper successor of a node by the up-probability and
/// discounts by `exp(r)` each period.
pub fn price_call_european<F: FloatExt>(s: &F, k: &F, r: &F, u: &F, d: &F, n: usize) -> (price:
    Result<F, LatticeError>)
    requires
        n <= i32::MAX,
    ensures
        price == lattice_outcome(*s, *k, *r, *u, *d, n as nat),
{
    if n == 0 {
        return Ok(max(F::zero(), s.sub(*k)));
    }
    let r_exp = r.exp();
    let p_up = r_exp.sub(*d).div(u.sub(*d));
    let zero = F::zero();
    let one = F::one();
    if !(zero.le(&p_up) && p_up.le(&one)) {
        return Err(LatticeError::InvalidParameters);
    }
    let p_down = one.sub(p_up);
    let prices = terminal_prices(s, u, d, n);
    let mut values: Vec<F> = Vec::new();
    let mut i: usize = 0;
    while i <= n
        invariant
            i <= n + 1,
            n <= i32::MAX,
            prices@.len() == n + 1,
            values@.len() == i,
            zero == F::spec_zero(),
            forall|j: int|
                0 <= j <= n ==> #[trigger] prices@[j] == terminal_price(
                    *s,
                    *u,
                    *d,
                    n as nat,
                    j as nat,
                ),
            forall|j: int|
                0 <= j < i ==> #[trigger] values@[j] == node_value(
                    *s,
                    *k,
                    *r,
                    *u,
                    *d,
                    n as nat,
                    n as nat,
                    j as nat,
                ),
        decreases n + 1 - i,
    {
        values.push(max(zero, prices[i].sub(*k)));
        i = i + 1;
    }
    let mut level: usize = n;
    while level > 0
        invariant
            level <= n,
            values@.len() == n + 1,
            r_exp == r.spec_exp(),
            p_up == up_probability(*r, *u, *d),
            p_down == F::spec_one().spec_sub(p_up),
            forall|j: int|
                0 <= j <= level ==> #[trigger] values@[j] == node_value(
                    *s,
                    *k,
                    *r,
                    *u,
                    *d,
                    n as nat,
                    level as nat,
                    j as nat,
                ),
        decreases level,
    {
        let mut j: usize = 0;
        while j < level
            invariant
                0 < level <= n,
                j <= level,
                values@.len() == n + 1,
                r_exp == r.spec_exp(),
                p_up == up_probability(*r, *u, *d),
                p_down == F::spec_one().spec_sub(p_up),
                forall|x: int|
                    0 <= x < j ==> #[trigger] values@[x] == node_value(
                        *s,
                        *k,
                        *r,
                        *u,
                        *d,
                        n as nat,
                        (level - 1) as nat,
                        x as nat,
                    ),
                forall|x: int|
                    j <= x <= level ==> #[trigger] values@[x] == node_value(
                        *s,
                        *k,
                        *r,
                        *u,
                        *d,
                        n as nat,
                        level as nat,
                        x as nat,
                    ),
            decreases level - j,
        {
            let v = p_up.mul(values[j + 1]).add(p_down.mul(values[j])).div(r_exp);
            values.set(j, v);
            j = j + 1;
        }
        level = level - 1;
    }
    Ok(values[0])
}

impl<F: FloatExt> Call<F> {
    /// Price on a binomial lattice with up and down factors `u` and `d`, the rate taken per
    /// period and the number of periods given by `time_to_period` from the time to maturity.
    pub fn bin_price<P: Fn(F) -> usize>(&self, u: F, d: F, time_to_period: P) -> (price: Result<
        F,
        LatticeError,
    >)
        requires
            time_to_period.requires((self.t,)),
        ensures
            exists|n: usize|
                #![trigger time_to_period.ensures((self.t,), n)]
                time_to_period.ensures((self.t,), n) && if n > i32::MAX {
                    price == Err::<F, LatticeError>(LatticeError::TooManyPeriods)
                } else {
                    price == lattice_outcome(self.s, self.k, self.r, u, d, n as nat)
                },
    {
        let n = time_to_period(self.t);
        if n > i32::MAX as usize {
            return Err(LatticeError::TooManyPeriods);
        }
        price_call_european(&self.s, &self.k, &self.r, &u, &d, n)
    }
}

} // verus!
