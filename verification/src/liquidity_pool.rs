//! The shared pool capability.
//!
//! A pricing strategy supplies four primitives — `set_reserves`, `reserves`,
//! `price_a`, `price_b` — and inherits the default algorithms built on them:
//! `reserves_rounded`, `add_liquidity`, `remove_liquidity`, `swap_a` and
//! `swap_b`.  Every mutating default ends in the strategy's own
//! `set_reserves`, so strategy-specific side effects of a reserve change fire
//! exactly once per mutation.
//!
//! Degenerate trades are no-ops: a swap whose cost comes to zero returns zero
//! and leaves the reserves untouched.  Arithmetic at the bounds saturates;
//! reserves are floored at zero when they shrink.

use vstd::prelude::*;
use crate::dec::{
    Dec, dec_round2, dec_sat_add, dec_sat_mul, round2_val, sat_add, sat_mul, sub0_val,
    sub_floor_zero, sub_floor_zero_spec, sum_fits, smax,
};

verus! {

/// A two-asset pool under some pricing strategy.
///
/// The spec side of the contract: `res_a`/`res_b` are the reserves, `inv`
/// says the representation is in range, `after_set` is the strategy's full
/// `set_reserves` transition (for the feedback-controlled strategy it also
/// refreshes the cached price), and `quote_a`/`quote_b` are the strategy's
/// price formulas.
pub trait LiquidityPool: Sized {
    /// The reserve of asset A.
    spec fn res_a(&self) -> Dec;

    /// The reserve of asset B.
    spec fn res_b(&self) -> Dec;

    /// The representation is in range.
    spec fn inv(&self) -> bool;

    /// The state after `set_reserves(a, b)`.
    spec fn after_set(&self, a: Dec, b: Dec) -> Self;

    /// What `price_a` returns.
    spec fn quote_a(&self, amount_a: Dec) -> Dec;

    /// What `price_b` returns.
    spec fn quote_b(&self, amount_b: Dec) -> Dec;

    /// In this state, quoting a non-negative amount over non-negative
    /// reserves never yields a negative price.
    spec fn nonneg_quotes(&self) -> bool;

    /// The strategy quotes zero for an amount that would drain (or exceed)
    /// the matching reserve, so such swaps are no-ops.
    spec fn blocks_excessive(&self) -> bool;

    /// Overwrites both reserves, unconditionally, and lets the strategy react
    /// to the change.
    fn set_reserves(&mut self, reserves_a: Dec, reserves_b: Dec)
        requires
            old(self).inv(),
            reserves_a.wf(),
            reserves_b.wf(),
        ensures
            *final(self) == old(self).after_set(reserves_a, reserves_b),
            final(self).inv(),
            final(self).res_a() == reserves_a,
            final(self).res_b() == reserves_b,
    ;

    /// Reads both reserves.
    fn reserves(&self) -> (r: (Dec, Dec))
        requires
            self.inv(),
        ensures
            r.0 == self.res_a(),
            r.1 == self.res_b(),
            r.0.wf(),
            r.1.wf(),
    ;

    /// The cost in asset B per `amount_a` of asset A traded in.
    fn price_a(&self, amount_a: Dec) -> (r: Dec)
        requires
            self.inv(),
            amount_a.wf(),
        ensures
            r == self.quote_a(amount_a),
            r.wf(),
            self.nonneg_quotes() && amount_a.val() >= 0 && self.res_a().val() >= 0
                && self.res_b().val() >= 0 ==> r.val() >= 0,
            self.blocks_excessive() && amount_a.val() >= self.res_a().val() ==> r.val() == 0,
    ;

    /// The cost in asset A per `amount_b` of asset B traded in.
    fn price_b(&self, amount_b: Dec) -> (r: Dec)
        requires
            self.inv(),
            amount_b.wf(),
        ensures
            r == self.quote_b(amount_b),
            r.wf(),
            self.nonneg_quotes() && amount_b.val() >= 0 && self.res_a().val() >= 0
                && self.res_b().val() >= 0 ==> r.val() >= 0,
            self.blocks_excessive() && amount_b.val() >= self.res_b().val() ==> r.val() == 0,
    ;

    /// Both reserves rounded half away from zero to two decimal places; a
    /// display convenience, never used inside pricing.
    fn reserves_rounded(&self) -> (r: (Dec, Dec))
        requires
            self.inv(),
        ensures
            r.0.wf(),
            r.1.wf(),
            r.0.val() == round2_val(self.res_a().val()),
            r.1.val() == round2_val(self.res_b().val()),
            r.0.scale <= 2,
            r.1.scale <= 2,
    {
        let (reserves_a, reserves_b) = self.reserves();
        (dec_round2(&reserves_a), dec_round2(&reserves_b))
    }

    /// Deposits `a` and `b` into the reserves, saturating at the
    /// representable maximum.
    fn add_liquidity(&mut self, a: Dec, b: Dec)
        requires
            old(self).inv(),
            a.wf(),
            b.wf(),
        ensures
            final(self).inv(),
            *final(self) == old(self).after_set(
                sat_add(old(self).res_a(), a),
                sat_add(old(self).res_b(), b),
            ),
            final(self).res_a() == sat_add(old(self).res_a(), a),
            final(self).res_b() == sat_add(old(self).res_b(), b),
            old(self).res_a().val() >= 0 && a.val() >= 0 ==> final(self).res_a().val() >= 0,
            old(self).res_b().val() >= 0 && b.val() >= 0 ==> final(self).res_b().val() >= 0,
            old(self).res_a().val() == 0 ==> final(self).res_a().val() == a.val(),
            old(self).res_b().val() == 0 ==> final(self).res_b().val() == b.val(),
            sum_fits(old(self).res_a(), a) ==> final(self).res_a().val() == old(self).res_a().val()
                + a.val() && final(self).res_a().scale <= smax(old(self).res_a(), a),
            sum_fits(old(self).res_b(), b) ==> final(self).res_b().val() == old(self).res_b().val()
                + b.val() && final(self).res_b().scale <= smax(old(self).res_b(), b),
    {
        let (reserves_a, reserves_b) = self.reserves();
        let new_a = dec_sat_add(&reserves_a, &a);
        let new_b = dec_sat_add(&reserves_b, &b);
        self.set_reserves(new_a, new_b);
    }

    /// Withdraws `a` and `b` from the reserves, clamping each at zero: a
    /// reserve never goes negative.
    fn remove_liquidity(&mut self, a: Dec, b: Dec)
        requires
            old(self).inv(),
            a.wf(),
            b.wf(),
        ensures
            final(self).inv(),
            *final(self) == old(self).after_set(
                sub_floor_zero_spec(old(self).res_a(), a),
                sub_floor_zero_spec(old(self).res_b(), b),
            ),
            final(self).res_a() == sub_floor_zero_spec(old(self).res_a(), a),
            final(self).res_b() == sub_floor_zero_spec(old(self).res_b(), b),
            final(self).res_a().val() >= 0,
            final(self).res_b().val() >= 0,
            sum_fits(old(self).res_a(), a) ==> final(self).res_a().val() == sub0_val(
                old(self).res_a().val(),
                a.val(),
            ),
            sum_fits(old(self).res_b(), b) ==> final(self).res_b().val() == sub0_val(
                old(self).res_b().val(),
                b.val(),
            ),
            a.val() == 0 ==> final(self).res_a().val() == sub0_val(old(self).res_a().val(), 0),
            b.val() == 0 ==> final(self).res_b().val() == sub0_val(old(self).res_b().val(), 0),
    {
        let (reserves_a, reserves_b) = self.reserves();
        let new_a = sub_floor_zero(&reserves_a, &a);
        let new_b = sub_floor_zero(&reserves_b, &b);
        self.set_reserves(new_a, new_b);
    }

    /// Swaps `amount_a` of asset A for asset B and returns the amount of B
    /// received.  A zero cost makes the call a no-op that returns zero.
    fn swap_a(&mut self, amount_a: Dec) -> (r: Dec)
        requires
            old(self).inv(),
            amount_a.wf(),
        ensures
            final(self).inv(),
            r.wf(),
            ({
                let cost = sat_mul(old(self).quote_a(amount_a), amount_a);
                if cost.val() == 0 {
                    *final(self) == *old(self) && r.val() == 0
                } else {
                    r == cost && *final(self) == old(self).after_set(
                        sub_floor_zero_spec(old(self).res_a(), amount_a),
                        sat_add(old(self).res_b(), cost),
                    )
                }
            }),
            old(self).blocks_excessive() && amount_a.val() >= old(self).res_a().val()
                ==> *final(self) == *old(self) && r.val() == 0,
            old(self).nonneg_quotes() && amount_a.val() >= 0 && old(self).res_a().val() >= 0
                && old(self).res_b().val() >= 0 ==> final(self).res_a().val() >= 0
                && final(self).res_b().val() >= 0 && r.val() >= 0,
    {
        let price = self.price_a(amount_a);
        let cost_b = dec_sat_mul(&price, &amount_a);
        if cost_b.is_zero() {
            return Dec::zero();
        }
        let (reserves_a, reserves_b) = self.reserves();
        let new_a = sub_floor_zero(&reserves_a, &amount_a);
        let new_b = dec_sat_add(&reserves_b, &cost_b);
        self.set_reserves(new_a, new_b);
        cost_b
    }

    /// Swaps `amount_b` of asset B for asset A and returns the amount of A
    /// received.  A zero cost makes the call a no-op that returns zero.
    fn swap_b(&mut self, amount_b: Dec) -> (r: Dec)
        requires
            old(self).inv(),
            amount_b.wf(),
        ensures
            final(self).inv(),
            r.wf(),
            ({
                let cost = sat_mul(old(self).quote_b(amount_b), amount_b);
                if cost.val() == 0 {
                    *final(self) == *old(self) && r.val() == 0
                } else {
                    r == cost && *final(self) == old(self).after_set(
                        sat_add(old(self).res_a(), cost),
                        sub_floor_zero_spec(old(self).res_b(), amount_b),
                    )
                }
            }),
            old(self).blocks_excessive() && amount_b.val() >= old(self).res_b().val()
                ==> *final(self) == *old(self) && r.val() == 0,
            old(self).nonneg_quotes() && amount_b.val() >= 0 && old(self).res_a().val() >= 0
                && old(self).res_b().val() >= 0 ==> final(self).res_a().val() >= 0
                && final(self).res_b().val() >= 0 && r.val() >= 0,
    {
        let price = self.price_b(amount_b);
        let cost_a = dec_sat_mul(&price, &amount_b);
        if cost_a.is_zero() {
            return Dec::zero();
        }
        let (reserves_a, reserves_b) = self.reserves();
        let new_b = sub_floor_zero(&reserves_b, &amount_b);
        let new_a = dec_sat_add(&reserves_a, &cost_a);
        self.set_reserves(new_a, new_b);
        cost_a
    }
}

/// Adding liquidity and then removing the same amount restores a reserve
/// exactly, as long as the addition stayed below the saturation bound.
///
/// `add_liquidity` leaves a reserve at `before + amount` whenever the sum
/// fits (its `sum_fits` clause), and `remove_liquidity` then leaves it at
/// `sub0_val(before + amount, amount)`: this law closes the loop.
pub proof fn lemma_add_remove_restores(before: int, amount: int)
    requires
        0 <= before,
        0 <= amount,
    ensures
        sub0_val(before + amount, amount) == before,
{
}

} // verus!
