//! Constant-sum market maker.
//!
//! Holds the total of the two reserves near-constant, as fits pegged-asset
//! pairs.  `price_a(amount)` simulates withdrawing a proportional slice of B:
//! `new_b = reserves_b - amount * reserves_b / reserves_a`,
//! `new_a = reserves_a + amount`, and quotes `new_b / new_a`.
//!
//! A quote is zero — and the swap built on it a no-op — when the total is
//! zero, when the slice's divisor `reserves_a` is zero, when the amount is at
//! least `reserves_a` (it would drain the proportional slice), when the
//! simulated reserve comes out negative, or when a division fails.

use vstd::prelude::*;
use crate::dec::{
    Dec, chk_div, dec_chk_div, dec_sat_add, dec_sat_mul, dec_sat_sub, sat_add, sat_mul, sat_sub,
    zero_dec,
};
use crate::liquidity_pool::LiquidityPool;

verus! {

/// A pool holding a constant sum of its two reserves.
#[derive(Clone, Copy, Debug)]
pub struct ConstantSumMarketMaker {
    pub reserves_a: Dec,
    pub reserves_b: Dec,
}

/// The constant-sum quote for trading `amount` of the `ra` side in, with the
/// degenerate cases sent to zero.
pub open spec fn csmm_quote(ra: Dec, rb: Dec, amount: Dec) -> Dec {
    if sat_add(ra, rb).val() == 0 {
        zero_dec()
    } else if ra.val() == 0 {
        zero_dec()
    } else if amount.val() >= ra.val() {
        zero_dec()
    } else {
        let slice = match chk_div(sat_mul(amount, rb), ra) {
            Some(s) => s,
            None => zero_dec(),
        };
        let new_b = sat_sub(rb, slice);
        if new_b.val() < 0 {
            zero_dec()
        } else {
            match chk_div(new_b, sat_add(ra, amount)) {
                Some(p) => p,
                None => zero_dec(),
            }
        }
    }
}

impl ConstantSumMarketMaker {
    /// A pool with empty reserves.
    pub fn new() -> (r: Self)
        ensures
            r.inv(),
            r.res_a().val() == 0,
            r.res_b().val() == 0,
    {
        ConstantSumMarketMaker { reserves_a: Dec::zero(), reserves_b: Dec::zero() }
    }

    /// Quotes one side; `ra` is the reserve matching the amount traded in.
    fn quote(ra: &Dec, rb: &Dec, amount: &Dec) -> (r: Dec)
        requires
            ra.wf(),
            rb.wf(),
            amount.wf(),
        ensures
            r == csmm_quote(*ra, *rb, *amount),
            r.wf(),
            amount.val() >= 0 && ra.val() >= 0 && rb.val() >= 0 ==> r.val() >= 0,
            amount.val() >= ra.val() ==> r.val() == 0,
    {
        let total = dec_sat_add(ra, rb);
        if total.is_zero() {
            return Dec::zero();
        }
        if ra.is_zero() {
            return Dec::zero();
        }
        if !amount.lt_val(ra) {
            return Dec::zero();
        }
        let scaled = dec_sat_mul(amount, rb);
        let slice = match dec_chk_div(&scaled, ra) {
            Some(s) => s,
            None => Dec::zero(),
        };
        let new_b = dec_sat_sub(rb, &slice);
        if new_b.is_negative() {
            return Dec::zero();
        }
        let new_a = dec_sat_add(ra, amount);
        match dec_chk_div(&new_b, &new_a) {
            Some(p) => p,
            None => Dec::zero(),
        }
    }
}

impl Default for ConstantSumMarketMaker {
    /// A pool with empty reserves.
    fn default() -> (r: Self)
        ensures
            r.inv(),
            r.res_a().val() == 0,
            r.res_b().val() == 0,
    {
        ConstantSumMarketMaker::new()
    }
}

impl LiquidityPool for ConstantSumMarketMaker {
    open spec fn res_a(&self) -> Dec {
        self.reserves_a
    }

    open spec fn res_b(&self) -> Dec {
        self.reserves_b
    }

    open spec fn inv(&self) -> bool {
        self.reserves_a.wf() && self.reserves_b.wf()
    }

    open spec fn after_set(&self, a: Dec, b: Dec) -> Self {
        ConstantSumMarketMaker { reserves_a: a, reserves_b: b }
    }

    open spec fn quote_a(&self, amount_a: Dec) -> Dec {
        csmm_quote(self.reserves_a, self.reserves_b, amount_a)
    }

    open spec fn quote_b(&self, amount_b: Dec) -> Dec {
        csmm_quote(self.reserves_b, self.reserves_a, amount_b)
    }

    open spec fn nonneg_quotes(&self) -> bool {
        true
    }

    open spec fn blocks_excessive(&self) -> bool {
        true
    }

    fn set_reserves(&mut self, reserves_a: Dec, reserves_b: Dec) {
        self.reserves_a = reserves_a;
        self.reserves_b = reserves_b;
    }

    fn reserves(&self) -> (r: (Dec, Dec)) {
        (self.reserves_a, self.reserves_b)
    }

    fn price_a(&self, amount_a: Dec) -> (r: Dec) {
        ConstantSumMarketMaker::quote(&self.reserves_a, &self.reserves_b, &amount_a)
    }

    fn price_b(&self, amount_b: Dec) -> (r: Dec) {
        ConstantSumMarketMaker::quote(&self.reserves_b, &self.reserves_a, &amount_b)
    }
}

} // verus!
