//! A self-contained constant-product pool.
//!
//! The same algorithms as the shared capability specialised to the marginal
//! constant-product formula, carried by a plain struct with inherent methods:
//! what a caller wants when it needs exactly one pool and no strategy
//! indirection.

use vstd::prelude::*;
use crate::cpmm::{ConstantProductMarketMaker, cpmm_quote};
use crate::dec::{
    Dec, dec_sat_add, dec_sat_mul, sat_add, sat_mul, sub0_val, sub_floor_zero,
    sub_floor_zero_spec, sum_fits, smax,
};

verus! {

/// A two-asset pool priced by the marginal constant-product formula.
#[derive(Clone, Copy, Debug)]
pub struct LiquidityPool {
    pub reserves_a: Dec,
    pub reserves_b: Dec,
}

impl LiquidityPool {
    /// The representation is in range.
    pub open spec fn inv(&self) -> bool {
        self.reserves_a.wf() && self.reserves_b.wf()
    }

    /// A pool with empty reserves.
    pub fn new() -> (r: Self)
        ensures
            r.inv(),
            r.reserves_a.val() == 0,
            r.reserves_b.val() == 0,
    {
        LiquidityPool { reserves_a: Dec::zero(), reserves_b: Dec::zero() }
    }

    /// Reads both reserves.
    pub fn reserves(&self) -> (r: (Dec, Dec))
        requires
            self.inv(),
        ensures
            r.0 == self.reserves_a,
            r.1 == self.reserves_b,
    {
        (self.reserves_a, self.reserves_b)
    }

    /// Deposits `a` and `b` into the reserves, saturating at the
    /// representable maximum.
    pub fn add_liquidity(&mut self, a: Dec, b: Dec)
        requires
            old(self).inv(),
            a.wf(),
            b.wf(),
        ensures
            final(self).inv(),
            final(self).reserves_a == sat_add(old(self).reserves_a, a),
            final(self).reserves_b == sat_add(old(self).reserves_b, b),
            old(self).reserves_a.val() >= 0 && a.val() >= 0 ==> final(self).reserves_a.val() >= 0,
            old(self).reserves_b.val() >= 0 && b.val() >= 0 ==> final(self).reserves_b.val() >= 0,
            old(self).reserves_a.val() == 0 ==> final(self).reserves_a.val() == a.val(),
            old(self).reserves_b.val() == 0 ==> final(self).reserves_b.val() == b.val(),
            sum_fits(old(self).reserves_a, a) ==> final(self).reserves_a.val() == old(
                self,
            ).reserves_a.val() + a.val() && final(self).reserves_a.scale <= smax(
                old(self).reserves_a,
                a,
            ),
            sum_fits(old(self).reserves_b, b) ==> final(self).reserves_b.val() == old(
                self,
            ).reserves_b.val() + b.val() && final(self).reserves_b.scale <= smax(
                old(self).reserves_b,
                b,
            ),
    {
        let reserves_a = dec_sat_add(&self.reserves_a, &a);
        let reserves_b = dec_sat_add(&self.reserves_b, &b);
        self.reserves_a = reserves_a;
        self.reserves_b = reserves_b;
    }

    /// Withdraws `a` and `b` from the reserves, clamping each at zero: a
    /// reserve never goes negative.
    pub fn remove_liquidity(&mut self, a: Dec, b: Dec)
        requires
            old(self).inv(),
            a.wf(),
            b.wf(),
        ensures
            final(self).inv(),
            final(self).reserves_a == sub_floor_zero_spec(old(self).reserves_a, a),
            final(self).reserves_b == sub_floor_zero_spec(old(self).reserves_b, b),
            final(self).reserves_a.val() >= 0,
            final(self).reserves_b.val() >= 0,
            sum_fits(old(self).reserves_a, a) ==> final(self).reserves_a.val() == sub0_val(
                old(self).reserves_a.val(),
                a.val(),
            ),
            sum_fits(old(self).reserves_b, b) ==> final(self).reserves_b.val() == sub0_val(
                old(self).reserves_b.val(),
                b.val(),
            ),
    {
        let reserves_a = sub_floor_zero(&self.reserves_a, &a);
        let reserves_b = sub_floor_zero(&self.reserves_b, &b);
        self.reserves_a = reserves_a;
        self.reserves_b = reserves_b;
    }

    /// The cost in asset B per `amount_a` of asset A traded in:
    /// `reserves_b / (reserves_a - amount_a)`, zero in the degenerate cases.
    pub fn price_a(&self, amount_a: Dec) -> (r: Dec)
        requires
            self.inv(),
            amount_a.wf(),
        ensures
            r == cpmm_quote(self.reserves_a, self.reserves_b, amount_a),
            r.wf(),
            amount_a.val() >= 0 && self.reserves_b.val() >= 0 ==> r.val() >= 0,
            amount_a.val() >= self.reserves_a.val() ==> r.val() == 0,
    {
        ConstantProductMarketMaker::quote(&self.reserves_a, &self.reserves_b, &amount_a)
    }

    /// The cost in asset A per `amount_b` of asset B traded in.
    pub fn price_b(&self, amount_b: Dec) -> (r: Dec)
        requires
            self.inv(),
            amount_b.wf(),
        ensures
            r == cpmm_quote(self.reserves_b, self.reserves_a, amount_b),
            r.wf(),
            amount_b.val() >= 0 && self.reserves_a.val() >= 0 ==> r.val() >= 0,
            amount_b.val() >= self.reserves_b.val() ==> r.val() == 0,
    {
        ConstantProductMarketMaker::quote(&self.reserves_b, &self.reserves_a, &amount_b)
    }

    /// Swaps `amount_a` of asset A for asset B and returns the amount of B
    /// received.  A zero cost — in particular any amount at least
    /// `reserves_a` — makes the call a no-op that returns zero.
    pub fn swap_a(&mut self, amount_a: Dec) -> (r: Dec)
        requires
            old(self).inv(),
            amount_a.wf(),
        ensures
            final(self).inv(),
            r.wf(),
            ({
                let cost = sat_mul(
                    cpmm_quote(old(self).reserves_a, old(self).reserves_b, amount_a),
                    amount_a,
                );
                if cost.val() == 0 {
                    *final(self) == *old(self) && r.val() == 0
                } else {
                    r == cost && final(self).reserves_a == sub_floor_zero_spec(
                        old(self).reserves_a,
                        amount_a,
                    ) && final(self).reserves_b == sat_add(old(self).reserves_b, cost)
                }
            }),
            amount_a.val() >= old(self).reserves_a.val() ==> *final(self) == *old(self) && r.val()
                == 0,
            amount_a.val() >= 0 && old(self).reserves_a.val() >= 0 && old(self).reserves_b.val()
                >= 0 ==> final(self).reserves_a.val() >= 0 && final(self).reserves_b.val() >= 0
                && r.val() >= 0,
    {
        let price = self.price_a(amount_a);
        let cost_b = dec_sat_mul(&price, &amount_a);
        if cost_b.is_zero() {
            return Dec::zero();
        }
        let reserves_a = sub_floor_zero(&self.reserves_a, &amount_a);
        let reserves_b = dec_sat_add(&self.reserves_b, &cost_b);
        self.reserves_a = reserves_a;
        self.reserves_b = reserves_b;
        cost_b
    }

    /// Swaps `amount_b` of asset B for asset A and returns the amount of A
    /// received.  A zero cost — in particular any amount at least
    /// `reserves_b` — makes the call a no-op that returns zero.
    pub fn swap_b(&mut self, amount_b: Dec) -> (r: Dec)
        requires
            old(self).inv(),
            amount_b.wf(),
        ensures
            final(self).inv(),
            r.wf(),
            ({
                let cost = sat_mul(
                    cpmm_quote(old(self).reserves_b, old(self).reserves_a, amount_b),
                    amount_b,
                );
                if cost.val() == 0 {
                    *final(self) == *old(self) && r.val() == 0
                } else {
                    r == cost && final(self).reserves_b == sub_floor_zero_spec(
                        old(self).reserves_b,
                        amount_b,
                    ) && final(self).reserves_a == sat_add(old(self).reserves_a, cost)
                }
            }),
            amount_b.val() >= old(self).reserves_b.val() ==> *final(self) == *old(self) && r.val()
                == 0,
            amount_b.val() >= 0 && old(self).reserves_a.val() >= 0 && old(self).reserves_b.val()
                >= 0 ==> final(self).reserves_a.val() >= 0 && final(self).reserves_b.val() >= 0
                && r.val() >= 0,
    {
        let price = self.price_b(amount_b);
        let cost_a = dec_sat_mul(&price, &amount_b);
        if cost_a.is_zero() {
            return Dec::zero();
        }
        let reserves_b = sub_floor_zero(&self.reserves_b, &amount_b);
        let reserves_a = dec_sat_add(&self.reserves_a, &cost_a);
        self.reserves_b = reserves_b;
        self.reserves_a = reserves_a;
        cost_a
    }
}

impl Default for LiquidityPool {
    /// A pool with empty reserves.
    fn default() -> (r: Self)
        ensures
            r.inv(),
            r.reserves_a.val() == 0,
            r.reserves_b.val() == 0,
    {
        LiquidityPool::new()
    }
}

} // verus!
