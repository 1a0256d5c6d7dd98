use quant_finance::binomial_option::{price_call_european, terminal_prices, LatticeError};
use quant_finance::black_scholes::{Call, GreeksBuilder, Put, VolError};
use quant_finance::bond;
use quant_finance::cash_flow::{cash_flow_irr, cash_flow_pv, cash_flow_pv_discrete, is_unique_irr};
use quant_finance::future;
use quant_finance::math::{standard_normal_cdf, standard_normal_pdf};
use quant_finance::numeric::{max, FloatExt};
use quant_finance::term_structure::{
    bonds_duration, bonds_price, discount_factor_from_yield, forward_rate_from_discount_factors,
    forward_rate_from_yields, term_forward_rate, term_yield, yield_from_discount_factor,
    yield_linearly_interpolated, TermStructure, TermStructureFlat, TermStructureInterpolated,
};

#[derive(Debug, Clone, Copy, PartialEq)]
struct R(f64);

impl FloatExt for R {
    fn zero() -> R {
        R(0.0)
    }
    fn one() -> R {
        R(1.0)
    }
    fn add(self, o: R) -> R {
        R(self.0 + o.0)
    }
    fn sub(self, o: R) -> R {
        R(self.0 - o.0)
    }
    fn mul(self, o: R) -> R {
        R(self.0 * o.0)
    }
    fn div(self, o: R) -> R {
        R(self.0 / o.0)
    }
    fn neg(self) -> R {
        R(-self.0)
    }
    fn abs(self) -> R {
        R(self.0.abs())
    }
    fn half(self) -> R {
        R(self.0 / 2.0)
    }
    fn exp(self) -> R {
        R(self.0.exp())
    }
    fn ln(self) -> R {
        R(self.0.ln())
    }
    fn sqrt(self) -> R {
        R(self.0.sqrt())
    }
    fn signum(self) -> R {
        R(self.0.signum())
    }
    fn from_int(n: i64) -> R {
        R(n as f64)
    }
    fn pi() -> R {
        R(std::f64::consts::PI)
    }
    fn powf(self, e: R) -> R {
        R(self.0.powf(e.0))
    }
    fn powi(self, e: i32) -> R {
        R(self.0.powi(e))
    }
    fn lt(&self, o: &R) -> bool {
        self.0 < o.0
    }
    fn le(&self, o: &R) -> bool {
        self.0 <= o.0
    }
    fn eq(&self, o: &R) -> bool {
        self.0 == o.0
    }
}

fn rs(xs: &[f64]) -> Vec<R> {
    xs.iter().map(|&x| R(x)).collect()
}

fn close(a: f64, b: f64, tol: f64) -> bool {
    (a - b).abs() < tol
}

fn call(s: f64, k: f64, r: f64, vol: f64, t: f64) -> Call<R> {
    Call { s: R(s), vol: R(vol), t: R(t), k: R(k), r: R(r), q: R(0.0) }
}

fn put(s: f64, k: f64, r: f64, vol: f64, t: f64) -> Put<R> {
    Put { s: R(s), vol: R(vol), t: R(t), k: R(k), r: R(r), q: R(0.0) }
}

// Cash flows

#[test]
fn test_cash_flow_pv_discrete() {
    let a = cash_flow_pv_discrete(&rs(&[0.0, 1.0, 2.0]), &rs(&[1.0, 1.0, 1.0]), &R(1.0));
    assert!(a.0 - 1.75 < 1e-10);
}

#[test]
fn test_cash_flow_pv() {
    let a = cash_flow_pv(&rs(&[0.0, 1.0, 2.0]), &rs(&[1.0, 1.0, 1.0]), &R(1.0));
    assert!(a.0 - 1.50321472440 < 1e-10);
}

#[test]
fn test_cash_flow_irr() {
    let a = cash_flow_irr(&rs(&[1.0, 2.0, 3.0]), &rs(&[-2.0, 1.0, 1.0]), &R(1.0e-5), 50, &(R(0.0)..R(1.0)));
    assert_eq!(a.map(|x| x.0), Some(0.9999923706054688));
}

#[test]
fn test_pv_discrete() {
    let a = bond::price_discrete(&rs(&[0.0, 1.0, 2.0]), &rs(&[1.0, 1.0, 1.0]), R(1.0));
    assert!(a.0 - 1.75 < 1e-10);
}

#[test]
fn test_pv() {
    let a = bond::price(&rs(&[0.0, 1.0, 2.0]), &rs(&[1.0, 1.0, 1.0]), R(1.0));
    assert!(a.0 - 1.50321472440 < 1e-10);
}

#[test]
fn test_irr() {
    let a = cash_flow_irr(&rs(&[1.0, 2.0, 3.0]), &rs(&[-2.0, 1.0, 1.0]), &R(1.0e-5), 50, &(R(0.0)..R(1.0)));
    assert_eq!(a.map(|x| x.0), Some(0.9999923706054688));
}

#[test]
fn test_is_unique_irr() {
    let a = is_unique_irr(&rs(&[1.0, 2.0, 3.0]), &rs(&[-2.0, 1.0, 1.0]));
    assert_eq!(a, true);
}

#[test]
fn pv_continuous_exact_value() {
    let a = cash_flow_pv(&rs(&[0.0, 1.0, 2.0]), &rs(&[1.0, 1.0, 1.0]), &R(1.0));
    assert!(close(a.0, 1.50321472440, 1e-10));
}

#[test]
fn pv_discrete_exact_value() {
    let a = cash_flow_pv_discrete(&rs(&[0.0, 1.0, 2.0]), &rs(&[1.0, 1.0, 1.0]), &R(1.0));
    assert!(close(a.0, 1.75, 1e-12));
}

#[test]
fn pv_of_empty_schedule_is_zero() {
    assert_eq!(cash_flow_pv(&[], &[], &R(0.3)).0, 0.0);
    assert_eq!(cash_flow_pv_discrete(&[], &[], &R(0.3)).0, 0.0);
}

#[test]
fn pv_ignores_unpaired_amounts() {
    let a = cash_flow_pv(&rs(&[0.0, 1.0]), &rs(&[1.0, 1.0, 100.0]), &R(1.0));
    assert!(close(a.0, 1.0 + (-1.0f64).exp(), 1e-12));
}

#[test]
fn irr_rejects_bracket_with_same_sign() {
    let a = cash_flow_irr(&rs(&[1.0, 2.0]), &rs(&[1.0, 1.0]), &R(1.0e-5), 50, &(R(0.0)..R(1.0)));
    assert_eq!(a, None);
    let b = cash_flow_irr(&rs(&[0.0, 1.0, 2.0]), &rs(&[-100.0, 60.0, 60.0]), &R(1.0e-5), 50, &(R(0.5)..R(1.0)));
    assert_eq!(b, None);
}

#[test]
fn irr_root_or_narrow_bracket() {
    let times = rs(&[0.0, 1.0, 2.0]);
    let amounts = rs(&[-100.0, 60.0, 60.0]);
    let r = cash_flow_irr(&times, &amounts, &R(1.0e-5), 100, &(R(0.0)..R(1.0))).unwrap().0;
    let at = |x: f64| cash_flow_pv(&times, &amounts, &R(x)).0;
    assert!(at(r).abs() < 1.0e-5 || (at(r - 1.0e-5) > 0.0) != (at(r + 1.0e-5) > 0.0));
    assert!(close(r, 0.12281, 1e-3));
}

#[test]
fn irr_orientation_with_positive_low_end() {
    let times = rs(&[0.0, 1.0, 2.0]);
    let amounts = rs(&[-100.0, 60.0, 60.0]);
    let r = cash_flow_irr(&times, &amounts, &R(1.0e-5), 100, &(R(1.0)..R(0.0))).unwrap().0;
    assert!(close(r, 0.12281, 1e-3));
}

#[test]
fn irr_gives_up_after_too_few_rounds() {
    let a = cash_flow_irr(&rs(&[1.0, 2.0, 3.0]), &rs(&[-2.0, 1.0, 1.0]), &R(1.0e-5), 3, &(R(0.0)..R(1.0)));
    assert_eq!(a, None);
    let b = cash_flow_irr(&rs(&[1.0, 2.0, 3.0]), &rs(&[-2.0, 1.0, 1.0]), &R(1.0e-5), 0, &(R(0.0)..R(1.0)));
    assert_eq!(b, None);
}

#[test]
fn unique_irr_cases() {
    assert!(!is_unique_irr(&rs(&[1.0, 2.0]), &rs(&[1.0, 1.0])));
    assert!(!is_unique_irr::<R>(&[], &[]));
    assert!(is_unique_irr(&rs(&[0.0, 1.0, 2.0]), &rs(&[-100.0, 60.0, 60.0])));
    // Three sign changes, cumulative sum -1, 1, 0.5, 1.5: one cumulative change.
    assert!(is_unique_irr(&rs(&[0.0, 1.0, 2.0, 3.0]), &rs(&[-1.0, 2.0, -0.5, 1.0])));
    // Cumulative sum -1, 1, -1, 1: three cumulative changes.
    assert!(!is_unique_irr(&rs(&[0.0, 1.0, 2.0, 3.0]), &rs(&[-1.0, 2.0, -2.0, 2.0])));
}

// Binomial lattice

#[test]
fn binomial_one_period_is_discounted_expectation() {
    let p = price_call_european(&R(100.0), &R(100.0), &R(0.05), &R(1.1), &R(0.9), 1).unwrap().0;
    let p_up = (0.05f64.exp() - 0.9) / (1.1 - 0.9);
    let expected = (p_up * 10.0 + (1.0 - p_up) * 0.0) / 0.05f64.exp();
    assert!(close(p, expected, 1e-9));
    assert!(0.0 <= p && p <= 100.0);
}

#[test]
fn binomial_zero_periods_is_payoff() {
    let p = price_call_european(&R(110.0), &R(100.0), &R(0.05), &R(1.1), &R(0.9), 0).unwrap().0;
    assert_eq!(p, 10.0);
    let q = price_call_european(&R(90.0), &R(100.0), &R(0.05), &R(1.1), &R(0.9), 0).unwrap().0;
    assert_eq!(q, 0.0);
}

#[test]
fn binomial_rejects_arbitrage() {
    let e = price_call_european(&R(100.0), &R(100.0), &R(0.05), &R(1.3), &R(1.1), 3);
    assert_eq!(e.map(|x| x.0), Err(LatticeError::InvalidParameters));
    let e = price_call_european(&R(100.0), &R(100.0), &R(0.5), &R(1.1), &R(0.9), 3);
    assert_eq!(e.map(|x| x.0), Err(LatticeError::InvalidParameters));
}

#[test]
fn binomial_terminal_prices_increase() {
    let prices = terminal_prices(&R(100.0), &R(1.1), &R(0.9), 10);
    assert_eq!(prices.len(), 11);
    assert!(close(prices[0].0, 100.0 * 0.9f64.powi(10), 1e-9));
    assert!(close(prices[10].0, 100.0 * 1.1f64.powi(10), 1e-6));
    for i in 1..prices.len() {
        assert!(prices[i - 1].0 < prices[i].0);
    }
}

#[test]
fn binomial_two_periods() {
    let r: f64 = 0.01;
    let p = price_call_european(&R(100.0), &R(100.0), &R(r), &R(1.1), &R(0.9), 2).unwrap().0;
    let pu = (r.exp() - 0.9) / 0.2;
    let d = r.exp();
    let up = (pu * (100.0 * 1.21 - 100.0) + (1.0 - pu) * (100.0 * 0.99 - 100.0f64).max(0.0)) / d;
    let down = 0.0;
    let expected = (pu * up + (1.0 - pu) * down) / d;
    assert!(close(p, expected, 1e-9));
}

#[test]
fn max_takes_larger() {
    assert_eq!(max(R(1.0), R(2.0)).0, 2.0);
    assert_eq!(max(R(3.0), R(2.0)).0, 3.0);
}

// Normal distribution

#[test]
fn normal_cdf_values() {
    assert!(close(standard_normal_cdf(R(0.0)).0, 0.5, 1e-7));
    assert!(close(standard_normal_cdf(R(1.96)).0, 0.9750021, 1e-6));
    assert!(close(standard_normal_cdf(R(-1.0)).0, 0.1586553, 1e-6));
}

#[test]
fn normal_pdf_values() {
    assert!(close(standard_normal_pdf(R(0.0)).0, 0.3989422804014327, 1e-15));
    assert!(close(standard_normal_pdf(R(1.0)).0, 0.24197072451914337, 1e-15));
}

// Black-Scholes

#[test]
fn call_price_reference_value() {
    let c = call(100.0, 100.0, 0.05, 0.2, 1.0);
    assert!(close(c.bs_price().0, 10.450583572185565, 1e-4));
}

#[test]
fn put_call_parity() {
    for &(s, k, r, vol, t, q) in &[(100.0, 100.0, 0.05, 0.2, 1.0, 0.0), (90.0, 110.0, 0.03, 0.5, 2.0, 0.02)] {
        let c = Call { s: R(s), vol: R(vol), t: R(t), k: R(k), r: R(r), q: R(q) };
        let p = Put { s: R(s), vol: R(vol), t: R(t), k: R(k), r: R(r), q: R(q) };
        let lhs = c.bs_price().0 - p.bs_price().0;
        let rhs = s * (-q * t).exp() - k * (-r * t).exp();
        assert!(close(lhs, rhs, 1e-9));
    }
}

#[test]
fn greeks_only_requested() {
    let c = call(100.0, 100.0, 0.05, 0.2, 1.0);
    let b = GreeksBuilder { delta: true, gamma: false, theta: false, vega: false, rho: false };
    let (price, g) = c.bs_price_and_greeks(&b);
    assert_eq!(price.0, c.bs_price().0);
    assert!(close(g.delta.0, 0.6368306, 1e-5));
    assert_eq!(g.gamma.0, 0.0);
    assert_eq!(g.theta.0, 0.0);
    assert_eq!(g.vega.0, 0.0);
    assert_eq!(g.rho.0, 0.0);
}

#[test]
fn greeks_all_values() {
    let c = call(100.0, 100.0, 0.05, 0.2, 1.0);
    let b = GreeksBuilder { delta: true, gamma: true, theta: true, vega: true, rho: true };
    let (_, g) = c.bs_price_and_greeks(&b);
    assert!(close(g.gamma.0, 0.018762, 1e-5));
    assert!(close(g.vega.0, 37.524, 1e-2));
    assert!(close(g.theta.0, -6.414, 1e-2));
    assert!(close(g.rho.0, 53.232, 1e-2));
    let p = put(100.0, 100.0, 0.05, 0.2, 1.0);
    let (_, h) = p.bs_price_and_greeks(&b);
    assert!(close(h.delta.0, g.delta.0 - 1.0, 1e-6));
    assert!(close(h.gamma.0, g.gamma.0, 1e-12));
    assert!(close(h.vega.0, g.vega.0, 1e-12));
    assert!(close(h.rho.0, -41.890, 1e-2));
}

#[test]
fn implied_vol_round_trip() {
    for _ in 0..20 {
        let vol = 0.1 + 1.9 * rand::random::<f64>();
        let target = call(100.0, 100.0, 0.05, vol, 1.0).bs_price();
        let mut b = call(100.0, 100.0, 0.05, 0.7, 1.0);
        assert_eq!(b.bissect_implied_vol(target), Ok(()));
        assert!((b.vol.0 - vol).abs() <= 1e-5 * vol, "bisection {} {}", vol, b.vol.0);
        let mut n = call(100.0, 100.0, 0.05, 0.7, 1.0);
        assert_eq!(n.newton_implied_vol(target), Ok(()));
        assert!((n.vol.0 - vol).abs() <= 1e-5 * vol, "newton {} {}", vol, n.vol.0);
    }
}

#[test]
fn implied_vol_round_trip_put() {
    let target = put(100.0, 110.0, 0.02, 0.35, 0.5).bs_price();
    let mut b = put(100.0, 110.0, 0.02, 0.1, 0.5);
    assert_eq!(b.bissect_implied_vol(target), Ok(()));
    assert!(close(b.vol.0, 0.35, 1e-5));
    let mut n = put(100.0, 110.0, 0.02, 0.1, 0.5);
    assert_eq!(n.newton_implied_vol(target), Ok(()));
    assert!(close(n.vol.0, 0.35, 1e-5));
}

#[test]
fn implied_vol_below_floor_is_zero() {
    let mut c = call(120.0, 100.0, 0.05, 0.3, 1.0);
    assert_eq!(c.bissect_implied_vol(R(1.0)), Ok(()));
    assert_eq!(c.vol.0, 0.0);
    let mut n = call(120.0, 100.0, 0.05, 0.3, 1.0);
    assert_eq!(n.newton_implied_vol(R(1.0)), Ok(()));
    assert_eq!(n.vol.0, 0.0);
}

#[test]
fn implied_vol_too_high() {
    let mut c = call(100.0, 100.0, 0.05, 0.3, 1.0);
    assert_eq!(c.bissect_implied_vol(R(150.0)), Err(VolError::HighVol));
    assert_eq!(c.vol.0, 0.3);
}

#[test]
fn implied_vol_out_of_rounds() {
    let mut c = call(100.0, 100.0, 0.05, 0.3, 1.0);
    assert_eq!(c.bissect_implied_vol(R(f64::NAN)), Err(VolError::TooManyIterations));
    assert_eq!(c.vol.0, 0.3);
}

#[test]
fn implied_vol_flat_vega() {
    let mut c = call(100.0, 1000.0, 0.0, 0.3, 1.0);
    assert_eq!(c.newton_implied_vol(R(1.0)), Err(VolError::FlatVega));
    assert_eq!(c.vol.0, 0.3);
}

// Bonds

#[test]
fn bond_yield_recovers_rate() {
    let times = rs(&[1.0, 2.0]);
    let amounts = rs(&[5.0, 105.0]);
    let p = bond::price(&times, &amounts, R(0.05));
    assert!(close(p.0, 5.0 * (-0.05f64).exp() + 105.0 * (-0.1f64).exp(), 1e-12));
    let y = bond::yield_to_maturity(&times, &amounts, p).unwrap().0;
    assert!(close(y, 0.05, 1e-4));
}

#[test]
fn bond_yield_widens_bracket() {
    let times = rs(&[1.0, 2.0]);
    let amounts = rs(&[5.0, 1.0e6]);
    let y = bond::yield_to_maturity(&times, &amounts, R(10.0)).unwrap().0;
    let p = bond::price(&times, &amounts, R(y)).0;
    assert!(y > 4.0 && y < 8.0);
    assert!(close(p, 10.0, 1e-2));
}

#[test]
fn bond_yield_without_bracket() {
    let times = rs(&[1.0, 2.0]);
    let amounts = rs(&[5.0, 105.0]);
    assert_eq!(bond::yield_to_maturity(&times, &amounts, R(-1.0)), None);
    assert_eq!(bond::duration_macaulay(&times, &amounts, R(-1.0)), None);
}

#[test]
fn bond_durations_and_convexity() {
    let times = rs(&[1.0, 2.0]);
    let amounts = rs(&[5.0, 105.0]);
    let d = bond::duration(&times, &amounts, R(0.05)).0;
    let a = 5.0 * (-0.05f64).exp();
    let b = 105.0 * (-0.1f64).exp();
    assert!(close(d, (a + 2.0 * b) / (a + b), 1e-12));
    let p = bond::price(&times, &amounts, R(0.05));
    let mac = bond::duration_macaulay(&times, &amounts, p).unwrap().0;
    assert!(close(mac, d, 1e-4));
    let modified = bond::duration_modified(&times, &amounts, R(0.05), p).unwrap().0;
    assert!(close(modified, d / 1.05, 1e-4));
    let c = bond::convexity(&times, &amounts, R(0.05)).0;
    assert!(close(c, a + 4.0 * b, 1e-9));
}

// Term structure

#[test]
fn interpolated_yields() {
    let times = rs(&[1.0, 2.0, 3.0]);
    let yields = rs(&[0.01, 0.02, 0.04]);
    assert!(close(yield_linearly_interpolated(R(1.5), &times, &yields).0, 0.015, 1e-15));
    assert!(close(yield_linearly_interpolated(R(2.5), &times, &yields).0, 0.03, 1e-15));
    assert_eq!(yield_linearly_interpolated(R(0.5), &times, &yields).0, 0.01);
    assert_eq!(yield_linearly_interpolated(R(5.0), &times, &yields).0, 0.04);
    assert_eq!(yield_linearly_interpolated(R(3.0), &times, &yields).0, 0.04);
    assert_eq!(yield_linearly_interpolated(R(2.0), &times, &yields).0, 0.02);
    assert_eq!(yield_linearly_interpolated(R(2.0), &[], &[]).0, 0.0);
}

#[test]
fn yield_and_discount_factor_conversions() {
    let d = discount_factor_from_yield(R(0.05), R(2.0)).0;
    assert!(close(d, (-0.1f64).exp(), 1e-15));
    assert!(close(yield_from_discount_factor(R(d), R(2.0)).0, 0.05, 1e-15));
    let f = forward_rate_from_discount_factors(R((-0.01f64).exp()), R((-0.04f64).exp()), R(1.0)).0;
    assert!(close(f, 0.03, 1e-15));
    assert!(close(forward_rate_from_yields(R(0.01), R(0.02), R(0.0), R(1.0), R(2.0)).0, 0.03, 1e-15));
}

#[test]
fn flat_term_structure() {
    let flat = TermStructureFlat::new(R(0.05));
    assert!(close(flat.discount_factor(R(2.0)).0, (-0.1f64).exp(), 1e-15));
    assert!(close(term_yield(&flat, R(2.0)).0, 0.05, 1e-12));
    assert!(close(term_forward_rate(&flat, R(1.0), R(3.0)).0, 0.05, 1e-12));
    let negative = TermStructureFlat::new(R(-0.01));
    assert_eq!(negative.discount_factor(R(2.0)).0, 1.0);
}

#[test]
fn interpolated_term_structure() {
    let ts = TermStructureInterpolated::new(rs(&[1.0, 2.0, 3.0]), rs(&[0.01, 0.02, 0.04]));
    assert!(close(term_yield(&ts, R(1.5)).0, 0.015, 1e-12));
    assert!(close(term_forward_rate(&ts, R(1.0), R(2.0)).0, 0.03, 1e-12));
}

#[test]
fn bonds_on_term_structure() {
    let flat = TermStructureFlat::new(R(0.05));
    let times = rs(&[1.0, 2.0]);
    let amounts = rs(&[5.0, 105.0]);
    let p = bonds_price(&times, &amounts, &flat).0;
    assert!(close(p, bond::price(&times, &amounts, R(0.05)).0, 1e-12));
    let d = bonds_duration(&times, &amounts, &flat).0;
    assert!(close(d, bond::duration(&times, &amounts, R(0.05)).0, 1e-12));
}

// Futures

#[test]
fn future_price_grows_at_rate() {
    assert!(close(future::price(R(100.0), R(0.05), R(0.0), R(1.0)).0, 100.0 * 0.05f64.exp(), 1e-12));
    assert_eq!(future::price(R(100.0), R(0.05), R(1.0), R(1.0)).0, 100.0);
}

#[test]
fn bin_price_uses_periods_of_maturity() {
    let c = call(100.0, 100.0, 0.01, 0.2, 0.5);
    let p = c.bin_price(R(1.1), R(0.9), |t: R| (t.0 * 12.0) as usize).unwrap().0;
    let q = price_call_european(&R(100.0), &R(100.0), &R(0.01), &R(1.1), &R(0.9), 6).unwrap().0;
    assert_eq!(p, q);
    assert!(p > 0.0 && p < 100.0);
}

#[test]
fn bin_price_rejects_too_many_periods() {
    let c = call(100.0, 100.0, 0.01, 0.2, 0.5);
    assert_eq!(c.bin_price(R(1.1), R(0.9), |_t: R| usize::MAX).map(|x| x.0), Err(LatticeError::TooManyPeriods));
}

#[test]
fn irr_scenario_stops_on_step_width() {
    // The bracket's low end is already a root; the bisection still drifts to the other end
    // and stops on the width of its step, far from any root.
    let times = rs(&[1.0, 2.0, 3.0]);
    let amounts = rs(&[-2.0, 1.0, 1.0]);
    let r = cash_flow_irr(&times, &amounts, &R(1.0e-5), 50, &(R(0.0)..R(1.0))).unwrap();
    assert_eq!(cash_flow_pv(&times, &amounts, &R(0.0)).0, 0.0);
    assert!(cash_flow_pv(&times, &amounts, &r).0.abs() > 0.5);
}
