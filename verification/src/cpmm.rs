//! Constant-product market maker.
//!
//! Prices a trade from the instantaneous marginal price of the `x * y = k`
//! curve: `price_a(amount) = reserves_b / (reserves_a - amount)`.  This is
//! deliberately the marginal-price formula, not the exact invariant-preserving
//! swap output; quoting and executing with it carries a small first-order bias
//! for non-infinitesimal amounts, and that behaviour is kept as it stands.
//!
//! A quote is zero — and the swap built on it a no-op — when `reserves_a` is
//! zero, when the amount is at least `reserves_a` (non-positive denominator),
//! or when the division itself fails.

use vstd::prelude::*;
use crate::dec::{Dec, chk_div, dec_chk_div, dec_sat_sub, sat_sub, zero_dec};
use crate::liquidity_pool::LiquidityPool;

verus! {

/// A pool holding a constant product of its two reserves.
#[derive(Clone, Copy, Debug)]
pub struct ConstantProductMarketMaker {
    pub reserves_a: Dec,
    pub reserves_b: Dec,
}

/// The marginal constant-product quote: `rb / (ra - amount)`, zero when the
/// reserve is empty, the amount is at least the reserve, or the division is
/// invalid.
pub open spec fn cpmm_quote(ra: Dec, rb: Dec, amount: Dec) -> Dec {
    if ra.val() == 0 {
        zero_dec()
    } else if amount.val() >= ra.val() {
        zero_dec()
    } else {
        match chk_div(rb, sat_sub(ra, amount)) {
            Some(p) => p,
            None => zero_dec(),
        }
    }
}

impl ConstantProductMarketMaker {
    /// A pool with empty reserves.
    pub fn new() -> (r: Self)
        ensures
            r.inv(),
            r.res_a().val() == 0,
            r.res_b().val() == 0,
    {
        ConstantProductMarketMaker { reserves_a: Dec::zero(), reserves_b: Dec::zero() }
    }

    /// Quotes one side: `numer / (denom_reserve - amount)` with the
    /// degenerate cases sent to zero.
    pub(crate) fn quote(denom_reserve: &Dec, numer: &Dec, amount: &Dec) -> (r: Dec)
        requires
            denom_reserve.wf(),
            numer.wf(),
            amount.wf(),
        ensures
            r == cpmm_quote(*denom_reserve, *numer, *amount),
            r.wf(),
            amount.val() >= 0 && numer.val() >= 0 ==> r.val() >= 0,
            amount.val() >= denom_reserve.val() ==> r.val() == 0,
    {
        if denom_reserve.is_zero() {
            return Dec::zero();
        }
        if !amount.lt_val(denom_reserve) {
            return Dec::zero();
        }
        let denom = dec_sat_sub(denom_reserve, amount);
        match dec_chk_div(numer, &denom) {
            Some(p) => p,
            None => Dec::zero(),
        }
    }
}

impl Default for ConstantProductMarketMaker {
    /// A pool with empty reserves.
    fn default() -> (r: Self)
        ensures
            r.inv(),
            r.res_a().val() == 0,
            r.res_b().val() == 0,
    {
        ConstantProductMarketMaker::new()
    }
}

impl LiquidityPool for ConstantProductMarketMaker {
    open spec fn res_a(&self) -> Dec {
        self.reserves_a
    }

    open spec fn res_b(&self) -> Dec {
        self.reserves_b
    }

    open spec fn inv(&self) -> bool {
        self.reserves_a.wf() && self.reserves_b.wf()
    }

    open spec fn after_set(&self, a: Dec, b: Dec) -> Self {
        ConstantProductMarketMaker { reserves_a: a, reserves_b: b }
    }

    open spec fn quote_a(&self, amount_a: Dec) -> Dec {
        cpmm_quote(self.reserves_a, self.reserves_b, amount_a)
    }

    open spec fn quote_b(&self, amount_b: Dec) -> Dec {
        cpmm_quote(self.reserves_b, self.reserves_a, amount_b)
    }

    open spec fn nonneg_quotes(&self) -> bool {
        true
    }

    open spec fn blocks_excessive(&self) -> bool {
        true
    }

    fn set_reserves(&mut self, reserves_a: Dec, reserves_b: Dec) {
        self.reserves_a = reserves_a;
        self.reserves_b = reserves_b;
    }

    fn reserves(&self) -> (r: (Dec, Dec)) {
        (self.reserves_a, self.reserves_b)
    }

    fn price_a(&self, amount_a: Dec) -> (r: Dec) {
        ConstantProductMarketMaker::quote(&self.reserves_a, &self.reserves_b, &amount_a)
    }

    fn price_b(&self, amount_b: Dec) -> (r: Dec) {
        ConstantProductMarketMaker::quote(&self.reserves_b, &self.reserves_a, &amount_b)
    }
}

} // verus!
