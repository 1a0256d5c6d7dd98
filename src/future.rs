use vstd::prelude::*;
use crate::numeric::FloatExt;

verus! {

/// Price of a future: `exp(r * (mat - t)) * s`, for an asset priced `s` at time `t`, a
/// risk-free rate `r` and maturity `mat`.
pub fn price<F: FloatExt>(s: F, r: F, t: F, mat: F) -> (p: F)
    ensures
        p == r.spec_mul(mat.spec_sub(t)).spec_exp().spec_mul(s),
{
    r.mul(mat.sub(t)).exp().mul(s)
}

} // verus!
