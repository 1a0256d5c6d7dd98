// Quantitative-finance calculations, generic over a floating-point scalar (`FloatExt`):
// present values and internal rates of return of cash-flow schedules, bond metrics, term
// structures, binomial-lattice and Black-Scholes option pricing, and implied volatility.
pub mod numeric;
pub mod cash_flow;
pub mod binomial_option;
pub mod math;
pub mod black_scholes;
pub mod bond;
pub mod term_structure;
pub mod future;
