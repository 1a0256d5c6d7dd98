use vstd::prelude::*;
use crate::math::{cdf_spec, pdf_spec, standard_normal_cdf, standard_normal_pdf};
use crate::numeric::{
    FloatExt,
    MAX_ITERATIONS,
    accuracy,
    accuracy_spec,
    high_value,
    high_value_spec,
    ratio,
    ratio_spec,
};

verus! {

/// Why an implied volatility could not be found.
#[derive(Debug, Clone, Copy, PartialEq, Eq)]
pub enum VolError {
    /// Widening the volatility bracket passed the ceiling before the model price reached the
    /// observed one.
    HighVol,
    /// The solver ran out of rounds before the price came within the accuracy.
    TooManyIterations,
    /// Newton's method met a vega that is not positive and cannot divide by it.
    FlatVega,
}

/// Which sensitivities to compute alongside a price; the others are reported as zero.
#[derive(Debug, Clone, Copy, Default)]
pub struct GreeksBuilder {
    pub delta: bool,
    pub gamma: bool,
    pub theta: bool,
    pub vega: bool,
    pub rho: bool,
}

/// Sensitivities of an option price.
#[derive(Debug, Clone, Copy)]
pub struct Greeks<F> {
    pub delta: F,
    pub gamma: F,
    pub theta: F,
    pub vega: F,
    pub rho: F,
}

/// A European call.
#[derive(Debug, Clone, Copy)]
pub struct Call<F> {
    /// Asset price
    pub s: F,
    /// Asset volatility
    pub vol: F,
    /// Time to maturity
    pub t: F,
    /// Strike
    pub k: F,
    /// Risk-free rate
    pub r: F,
    /// Dividend yield
    pub q: F,
}

/// A European put.
#[derive(Debug, Clone, Copy)]
pub struct Put<F> {
    /// Asset price
    pub s: F,
    /// Asset volatility
    pub vol: F,
    /// Time to maturity
    pub t: F,
    /// Strike
    pub k: F,
    /// Risk-free rate
    pub r: F,
    /// Dividend yield
    pub q: F,
}

/// `d1 = (ln(s / k) + (r - q) * t) / (vol * sqrt(t)) + vol * sqrt(t) / 2`.
pub open spec fn d1_spec<F: FloatExt>(s: F, k: F, r: F, q: F, vol: F, t: F) -> F {
    let sig_sqrt_t = vol.spec_mul(t.spec_sqrt());
    s.spec_div(k).spec_ln().spec_add(r.spec_sub(q).spec_mul(t)).spec_div(sig_sqrt_t).spec_add(
        sig_sqrt_t.spec_half(),
    )
}

/// `d2 = d1 - vol * sqrt(t)`.
pub open spec fn d2_spec<F: FloatExt>(s: F, k: F, r: F, q: F, vol: F, t: F) -> F {
    d1_spec(s, k, r, q, vol, t).spec_sub(vol.spec_mul(t.spec_sqrt()))
}

/// Discount factor `exp(-x * t)`.
pub open spec fn discount_spec<F: FloatExt>(x: F, t: F) -> F {
    x.spec_neg().spec_mul(t).spec_exp()
}

/// The normal probabilities that weigh the asset and the strike legs: `N(d1)`, `N(d2)` for a
/// call, `N(-d1)`, `N(-d2)` for a put.
pub open spec fn leg_weights<F: FloatExt>(is_call: bool, s: F, k: F, r: F, q: F, vol: F, t: F) -> (
    F,
    F,
) {
    let d1 = d1_spec(s, k, r, q, vol, t);
    let d2 = d2_spec(s, k, r, q, vol, t);
    if is_call {
        (cdf_spec(d1), cdf_spec(d2))
    } else {
        (cdf_spec(d1.spec_neg()), cdf_spec(d2.spec_neg()))
    }
}

/// Black-Scholes price: `s * exp(-q t) * N(d1) - k * exp(-r t) * N(d2)` for a call,
/// `k * exp(-r t) * N(-d2) - s * exp(-q t) * N(-d1)` for a put.
pub open spec fn option_price_spec<F: FloatExt>(
    is_call: bool,
    s: F,
    k: F,
    r: F,
    q: F,
    vol: F,
    t: F,
) -> F {
    let (cdf1, cdf2) = leg_weights(is_call, s, k, r, q, vol, t);
    let asset = s.spec_mul(discount_spec(q, t)).spec_mul(cdf1);
    let strike = k.spec_mul(discount_spec(r, t)).spec_mul(cdf2);
    if is_call {
        asset.spec_sub(strike)
    } else {
        strike.spec_sub(asset)
    }
}

/// Vega: `s * exp(-q t) * sqrt(t) * n(d1)`, the same for a call and a put.
pub open spec fn vega_spec<F: FloatExt>(s: F, k: F, r: F, q: F, vol: F, t: F) -> F {
    s.spec_mul(discount_spec(q, t)).spec_mul(t.spec_sqrt()).spec_mul(
        pdf_spec(d1_spec(s, k, r, q, vol, t)),
    )
}

/// The sensitivities that `b` asks for, each zero when not asked for.
pub open spec fn greeks_spec<F: FloatExt>(
    is_call: bool,
    b: GreeksBuilder,
    s: F,
    k: F,
    r: F,
    q: F,
    vol: F,
    t: F,
) -> Greeks<F> {
    let zero = F::spec_zero();
    let sqrt_t = t.spec_sqrt();
    let sig_sqrt_t = vol.spec_mul(sqrt_t);
    let pdf1 = pdf_spec(d1_spec(s, k, r, q, vol, t));
    let (cdf1, cdf2) = leg_weights(is_call, s, k, r, q, vol, t);
    let eqt = discount_spec(q, t);
    let ert = discount_spec(r, t);
    let decay = s.spec_mul(eqt).spec_mul(vol).spec_mul(pdf1).spec_neg().spec_div(
        F::spec_from_int(2).spec_mul(sqrt_t),
    );
    let strike_leg = r.spec_mul(k).spec_mul(ert).spec_mul(cdf2);
    let asset_leg = q.spec_mul(s).spec_mul(eqt).spec_mul(cdf1);
    Greeks {
        delta: if !b.delta {
            zero
        } else if is_call {
            eqt.spec_mul(cdf1)
        } else {
            eqt.spec_neg().spec_mul(cdf1)
        },
        gamma: if b.gamma {
            eqt.spec_mul(pdf1).spec_div(s.spec_mul(sig_sqrt_t))
        } else {
            zero
        },
        theta: if !b.theta {
            zero
        } else if is_call {
            decay.spec_sub(strike_leg).spec_add(asset_leg)
        } else {
            decay.spec_add(strike_leg).spec_sub(asset_leg)
        },
        vega: if b.vega {
            vega_spec(s, k, r, q, vol, t)
        } else {
            zero
        },
        rho: if !b.rho {
            zero
        } else if is_call {
            k.spec_mul(t).spec_mul(ert).spec_mul(cdf2)
        } else {
            k.spec_neg().spec_mul(t).spec_mul(ert).spec_mul(cdf2)
        },
    }
}

fn bs_value<F: FloatExt>(is_call: bool, s: F, k: F, r: F, q: F, vol: F, t: F) -> (p: F)
    ensures
        p == option_price_spec(is_call, s, k, r, q, vol, t),
{
    let sig_sqrt_t = vol.mul(t.sqrt());
    let d1 = s.div(k).ln().add(r.sub(q).mul(t)).div(sig_sqrt_t).add(sig_sqrt_t.half());
    let d2 = d1.sub(sig_sqrt_t);
    let eqt = q.neg().mul(t).exp();
    let ert = r.neg().mul(t).exp();
    if is_call {
        let cdf1 = standard_normal_cdf(d1);
        let cdf2 = standard_normal_cdf(d2);
        s.mul(eqt).mul(cdf1).sub(k.mul(ert).mul(cdf2))
    } else {
        let cdf1 = standard_normal_cdf(d1.neg());
        let cdf2 = standard_normal_cdf(d2.neg());
        k.mul(ert).mul(cdf2).sub(s.mul(eqt).mul(cdf1))
    }
}

fn bs_evaluate<F: FloatExt>(
    is_call: bool,
    s: F,
    k: F,
    r: F,
    q: F,
    vol: F,
    t: F,
    b: &GreeksBuilder,
) -> (res: (F, Greeks<F>))
    ensures
        res.0 == option_price_spec(is_call, s, k, r, q, vol, t),
        res.1 == greeks_spec(is_call, *b, s, k, r, q, vol, t),
{
    let zero = F::zero();
    let sqrt_t = t.sqrt();
    let sig_sqrt_t = vol.mul(sqrt_t);
    let d1 = s.div(k).ln().add(r.sub(q).mul(t)).div(sig_sqrt_t).add(sig_sqrt_t.half());
    let d2 = d1.sub(sig_sqrt_t);
    let (cdf1, cdf2) = if is_call {
        (standard_normal_cdf(d1), standard_normal_cdf(d2))
    } else {
        (standard_normal_cdf(d1.neg()), standard_normal_cdf(d2.neg()))
    };
    let pdf1 = if b.gamma || b.vega || b.theta {
        standard_normal_pdf(d1)
    } else {
        zero
    };
    let eqt = q.neg().mul(t).exp();
    let ert = r.neg().mul(t).exp();
    let asset = s.mul(eqt).mul(cdf1);
    let strike = k.mul(ert).mul(cdf2);
    let price = if is_call {
        asset.sub(strike)
    } else {
        strike.sub(asset)
    };
    let delta = if !b.delta {
        zero
    } else if is_call {
        eqt.mul(cdf1)
    } else {
        eqt.neg().mul(cdf1)
    };
    let gamma = if b.gamma {
        eqt.mul(pdf1).div(s.mul(sig_sqrt_t))
    } else {
        zero
    };
    let theta = if !b.theta {
        zero
    } else {
        let decay = s.mul(eqt).mul(vol).mul(pdf1).neg().div(F::from_int(2).mul(sqrt_t));
        let strike_leg = r.mul(k).mul(ert).mul(cdf2);
        let asset_leg = q.mul(s).mul(eqt).mul(cdf1);
        if is_call {
            decay.sub(strike_leg).add(asset_leg)
        } else {
            decay.add(strike_leg).sub(asset_leg)
        }
    };
    let vega = if b.vega {
        s.mul(eqt).mul(sqrt_t).mul(pdf1)
    } else {
        zero
    };
    let rho = if !b.rho {
        zero
    } else if is_call {
        k.mul(t).mul(ert).mul(cdf2)
    } else {
        k.neg().mul(t).mul(ert).mul(cdf2)
    };
    (price, Greeks { delta, gamma, theta, vega, rho })
}

/// The volatility `1e-5` at which a price below the observed one is looked for first.
pub open spec fn floor_vol_spec<F: FloatExt>() -> F {
    ratio_spec::<F>(1, 100_000)
}

/// Widening of the bracket's upper volatility: while the price there is below `target`, the
/// volatility doubles; it fails once it passes the ceiling, or after `left` doublings.
pub open spec fn widen_spec<F: FloatExt>(
    is_call: bool,
    s: F,
    k: F,
    r: F,
    q: F,
    t: F,
    target: F,
    high: F,
    left: nat,
) -> Result<F, VolError>
    decreases left,
{
    if !option_price_spec(is_call, s, k, r, q, high, t).spec_lt(target) {
        Ok(high)
    } else if left == 0 {
        Err(VolError::HighVol)
    } else {
        let next = high.spec_mul(F::spec_from_int(2));
        if high_value_spec::<F>().spec_lt(next) {
            Err(VolError::HighVol)
        } else {
            widen_spec(is_call, s, k, r, q, t, target, next, (left - 1) as nat)
        }
    }
}

/// Bisection of the volatility between `low` and `high`, both ends moving: the midpoint is
/// returned once its price is within the accuracy of `target`.
pub open spec fn vol_bisect_spec<F: FloatExt>(
    is_call: bool,
    s: F,
    k: F,
    r: F,
    q: F,
    t: F,
    target: F,
    low: F,
    high: F,
    left: nat,
) -> Result<F, VolError>
    decreases left,
{
    if left == 0 {
        Err(VolError::TooManyIterations)
    } else {
        let mid = low.spec_add(high).spec_half();
        let diff = option_price_spec(is_call, s, k, r, q, mid, t).spec_sub(target);
        if diff.spec_abs().spec_lt(accuracy_spec::<F>()) {
            Ok(mid)
        } else if diff.spec_lt(F::spec_zero()) {
            vol_bisect_spec(is_call, s, k, r, q, t, target, mid, high, (left - 1) as nat)
        } else {
            vol_bisect_spec(is_call, s, k, r, q, t, target, low, mid, (left - 1) as nat)
        }
    }
}

/// Implied volatility by bisection: zero when `target` is below the price at the floor
/// volatility, else the bisection between the floor and the widened bracket `0.3 * 2^j`.
pub open spec fn implied_vol_bisection_spec<F: FloatExt>(
    is_call: bool,
    s: F,
    k: F,
    r: F,
    q: F,
    t: F,
    target: F,
) -> Result<F, VolError> {
    let low = floor_vol_spec::<F>();
    if target.spec_lt(option_price_spec(is_call, s, k, r, q, low, t)) {
        Ok(F::spec_zero())
    } else {
        match widen_spec(
            is_call,
            s,
            k,
            r,
            q,
            t,
            target,
            ratio_spec::<F>(3, 10),
            MAX_ITERATIONS as nat,
        ) {
            Ok(high) => vol_bisect_spec(
                is_call,
                s,
                k,
                r,
                q,
                t,
                target,
                low,
                high,
                MAX_ITERATIONS as nat,
            ),
            Err(e) => Err(e),
        }
    }
}

/// Newton's method from `vol`: stop once the price is within the accuracy of `target`,
/// else step by `(target - price) / vega`, failing on a vega that is not positive.
pub open spec fn newton_spec<F: FloatExt>(
    is_call: bool,
    s: F,
    k: F,
    r: F,
    q: F,
    t: F,
    target: F,
    vol: F,
    left: nat,
) -> Result<F, VolError>
    decreases left,
{
    if left == 0 {
        Err(VolError::TooManyIterations)
    } else {
        let diff = target.spec_sub(option_price_spec(is_call, s, k, r, q, vol, t));
        let vega = vega_spec(s, k, r, q, vol, t);
        if diff.spec_abs().spec_lt(accuracy_spec::<F>()) {
            Ok(vol)
        } else if !F::spec_zero().spec_lt(vega) {
            Err(VolError::FlatVega)
        } else {
            newton_spec(is_call, s, k, r, q, t, target, vol.spec_add(diff.spec_div(vega)), (left - 1) as nat)
        }
    }
}

/// The Brenner-Subrahmanyam first guess `(target / s) / (0.398 * sqrt(t))`.
pub open spec fn newton_guess_spec<F: FloatExt>(s: F, t: F, target: F) -> F {
    target.spec_div(s).spec_div(ratio_spec::<F>(398, 1000).spec_mul(t.spec_sqrt()))
}

/// Implied volatility by Newton's method: zero when `target` is below the price at the floor
/// volatility, else Newton's method from the first guess.
pub open spec fn implied_vol_newton_spec<F: FloatExt>(
    is_call: bool,
    s: F,
    k: F,
    r: F,
    q: F,
    t: F,
    target: F,
) -> Result<F, VolError> {
    if target.spec_lt(option_price_spec(is_call, s, k, r, q, floor_vol_spec::<F>(), t)) {
        Ok(F::spec_zero())
    } else {
        newton_spec(
            is_call,
            s,
            k,
            r,
            q,
            t,
            target,
            newton_guess_spec(s, t, target),
            MAX_ITERATIONS as nat,
        )
    }
}

fn widen_bracket<F: FloatExt>(is_call: bool, s: F, k: F, r: F, q: F, t: F, target: F) -> (res:
    Result<F, VolError>)
    ensures
        res == widen_spec(
            is_call,
            s,
            k,
            r,
            q,
            t,
            target,
            ratio_spec::<F>(3, 10),
            MAX_ITERATIONS as nat,
        ),
{
    let two = F::from_int(2);
    let ceiling: F = high_value();
    let mut high: F = ratio(3, 10);
    let mut left: usize = MAX_ITERATIONS;
    while bs_value(is_call, s, k, r, q, high, t).lt(&target)
        invariant
            two == F::spec_from_int(2),
            ceiling == high_value_spec::<F>(),
            widen_spec(
                is_call,
                s,
                k,
                r,
                q,
                t,
                target,
                ratio_spec::<F>(3, 10),
                MAX_ITERATIONS as nat,
            ) == widen_spec(is_call, s, k, r, q, t, target, high, left as nat),
        decreases left,
    {
        if left == 0 {
            return Err(VolError::HighVol);
        }
        high = high.mul(two);
        if ceiling.lt(&high) {
            return Err(VolError::HighVol);
        }
        left = left - 1;
    }
    Ok(high)
}

fn implied_vol_bisection<F: FloatExt>(is_call: bool, s: F, k: F, r: F, q: F, t: F, target: F) -> (res:
    Result<F, VolError>)
    ensures
        res == implied_vol_bisection_spec(is_call, s, k, r, q, t, target),
{
    let mut low: F = ratio(1, 100_000);
    if target.lt(&bs_value(is_call, s, k, r, q, low, t)) {
        return Ok(F::zero());
    }
    let mut high = match widen_bracket(is_call, s, k, r, q, t, target) {
        Ok(h) => h,
        Err(e) => {
            return Err(e);
        },
    };
    let acc: F = accuracy();
    let zero = F::zero();
    let ghost low0 = low;
    let ghost high0 = high;
    let mut i: usize = 0;
    while i < MAX_ITERATIONS
        invariant
            i <= MAX_ITERATIONS,
            acc == accuracy_spec::<F>(),
            zero == F::spec_zero(),
            implied_vol_bisection_spec(is_call, s, k, r, q, t, target) == vol_bisect_spec(
                is_call,
                s,
                k,
                r,
                q,
                t,
                target,
                low0,
                high0,
                MAX_ITERATIONS as nat,
            ),
            vol_bisect_spec(is_call, s, k, r, q, t, target, low0, high0, MAX_ITERATIONS as nat)
                == vol_bisect_spec(
                is_call,
                s,
                k,
                r,
                q,
                t,
                target,
                low,
                high,
                (MAX_ITERATIONS - i) as nat,
            ),
        decreases MAX_ITERATIONS - i,
    {
        let mid = low.add(high).half();
        let diff = bs_value(is_call, s, k, r, q, mid, t).sub(target);
        if diff.abs().lt(&acc) {
            return Ok(mid);
        }
        if diff.lt(&zero) {
            low = mid;
        } else {
            high = mid;
        }
        i = i + 1;
    }
    Err(VolError::TooManyIterations)
}

fn implied_vol_newton<F: FloatExt>(is_call: bool, s: F, k: F, r: F, q: F, t: F, target: F) -> (res:
    Result<F, VolError>)
    ensures
        res == implied_vol_newton_spec(is_call, s, k, r, q, t, target),
{
    let floor: F = ratio(1, 100_000);
    if target.lt(&bs_value(is_call, s, k, r, q, floor, t)) {
        return Ok(F::zero());
    }
    let mut vol = target.div(s).div(ratio::<F>(398, 1000).mul(t.sqrt()));
    let builder = GreeksBuilder { delta: false, gamma: false, theta: false, vega: true, rho: false };
    let acc: F = accuracy();
    let zero = F::zero();
    let ghost vol0 = vol;
    let mut i: usize = 0;
    while i < MAX_ITERATIONS
        invariant
            i <= MAX_ITERATIONS,
            acc == accuracy_spec::<F>(),
            zero == F::spec_zero(),
            builder.vega,
            implied_vol_newton_spec(is_call, s, k, r, q, t, target) == newton_spec(
                is_call,
                s,
                k,
                r,
                q,
                t,
                target,
                vol0,
                MAX_ITERATIONS as nat,
            ),
            newton_spec(is_call, s, k, r, q, t, target, vol0, MAX_ITERATIONS as nat) == newton_spec(
                is_call,
                s,
                k,
                r,
                q,
                t,
                target,
                vol,
                (MAX_ITERATIONS - i) as nat,
            ),
        decreases MAX_ITERATIONS - i,
    {
        let (price, greeks) = bs_evaluate(is_call, s, k, r, q, vol, t, &builder);
        let diff = target.sub(price);
        if diff.abs().lt(&acc) {
            return Ok(vol);
        }
        if !zero.lt(&greeks.vega) {
            return Err(VolError::FlatVega);
        }
        vol = vol.add(diff.div(greeks.vega));
        i = i + 1;
    }
    Err(VolError::TooManyIterations)
}

impl<F: FloatExt> Call<F> {
    /// The same contract with volatility `vol`.
    pub open spec fn with_vol(self, vol: F) -> Self {
        Call { s: self.s, vol, t: self.t, k: self.k, r: self.r, q: self.q }
    }

    /// Price by the Black-Scholes formula.
    pub fn bs_price(&self) -> (p: F)
        ensures
            p == option_price_spec(true, self.s, self.k, self.r, self.q, self.vol, self.t),
    {
        bs_value(true, self.s, self.k, self.r, self.q, self.vol, self.t)
    }

    /// Price by the Black-Scholes formula, with the sensitivities that `builder` asks for.
    pub fn bs_price_and_greeks(&self, builder: &GreeksBuilder) -> (res: (F, Greeks<F>))
        ensures
            res.0 == option_price_spec(true, self.s, self.k, self.r, self.q, self.vol, self.t),
            res.1 == greeks_spec(true, *builder, self.s, self.k, self.r, self.q, self.vol, self.t),
    {
        bs_evaluate(true, self.s, self.k, self.r, self.q, self.vol, self.t, builder)
    }

    /// Sets the volatility to the one implied by the observed price `call_price`, found by
    /// bisection; on failure the contract is left as it was.
    pub fn bissect_implied_vol(&mut self, call_price: F) -> (res: Result<(), VolError>)
        ensures
            (match implied_vol_bisection_spec(
                true,
                old(self).s,
                old(self).k,
                old(self).r,
                old(self).q,
                old(self).t,
                call_price,
            ) {
                Ok(v) => res is Ok && *final(self) == old(self).with_vol(v),
                Err(e) => res == Err::<(), VolError>(e) && *final(self) == *old(self),
            }),
    {
        match implied_vol_bisection(true, self.s, self.k, self.r, self.q, self.t, call_price) {
            Ok(v) => {
                self.vol = v;
                Ok(())
            },
            Err(e) => Err(e),
        }
    }

    /// Sets the volatility to the one implied by the observed price `call_price`, found by
    /// Newton's method with vega as the derivative; on failure the contract is left as it
    /// was.
    pub fn newton_implied_vol(&mut self, call_price: F) -> (res: Result<(), VolError>)
        ensures
            (match implied_vol_newton_spec(
                true,
                old(self).s,
                old(self).k,
                old(self).r,
                old(self).q,
                old(self).t,
                call_price,
            ) {
                Ok(v) => res is Ok && *final(self) == old(self).with_vol(v),
                Err(e) => res == Err::<(), VolError>(e) && *final(self) == *old(self),
            }),
    {
        match implied_vol_newton(true, self.s, self.k, self.r, self.q, self.t, call_price) {
            Ok(v) => {
                self.vol = v;
                Ok(())
            },
            Err(e) => Err(e),
        }
    }
}

impl<F: FloatExt> Put<F> {
    /// The same contract with volatility `vol`.
    pub open spec fn with_vol(self, vol: F) -> Self {
        Put { s: self.s, vol, t: self.t, k: self.k, r: self.r, q: self.q }
    }

    /// Price by the Black-Scholes formula.
    pub fn bs_price(&self) -> (p: F)
        ensures
            p == option_price_spec(false, self.s, self.k, self.r, self.q, self.vol, self.t),
    {
        bs_value(false, self.s, self.k, self.r, self.q, self.vol, self.t)
    }

    /// Price by the Black-Scholes formula, with the sensitivities that `builder` asks for.
    pub fn bs_price_and_greeks(&self, builder: &GreeksBuilder) -> (res: (F, Greeks<F>))
        ensures
            res.0 == option_price_spec(false, self.s, self.k, self.r, self.q, self.vol, self.t),
            res.1 == greeks_spec(false, *builder, self.s, self.k, self.r, self.q, self.vol, self.t),
    {
        bs_evaluate(false, self.s, self.k, self.r, self.q, self.vol, self.t, builder)
    }

    /// Sets the volatility to the one implied by the observed price `put_price`, found by
    /// bisection; on failure the contract is left as it was.
    pub fn bissect_implied_vol(&mut self, put_price: F) -> (res: Result<(), VolError>)
        ensures
            (match implied_vol_bisection_spec(
                false,
                old(self).s,
                old(self).k,
                old(self).r,
                old(self).q,
                old(self).t,
                put_price,
            ) {
                Ok(v) => res is Ok && *final(self) == old(self).with_vol(v),
                Err(e) => res == Err::<(), VolError>(e) && *final(self) == *old(self),
            }),
    {
        match implied_vol_bisection(false, self.s, self.k, self.r, self.q, self.t, put_price) {
            Ok(v) => {
                self.vol = v;
                Ok(())
            },
            Err(e) => Err(e),
        }
    }

    /// Sets the volatility to the one implied by the observed price `put_price`, found by
    /// Newton's method with vega as the derivative; on failure the contract is left as it
    /// was.
    pub fn newton_implied_vol(&mut self, put_price: F) -> (res: Result<(), VolError>)
        ensures
            (match implied_vol_newton_spec(
                false,
                old(self).s,
                old(self).k,
                old(self).r,
                old(self).q,
                old(self).t,
                put_price,
            ) {
                Ok(v) => res is Ok && *final(self) == old(self).with_vol(v),
                Err(e) => res == Err::<(), VolError>(e) && *final(self) == *old(self),
            }),
    {
        match implied_vol_newton(false, self.s, self.k, self.r, self.q, self.t, put_price) {
            Ok(v) => {
                self.vol = v;
                Ok(())
            },
            Err(e) => Err(e),
        }
    }
}

} // verus!
