//! PID-regulated market maker.
//!
//! A feedback-controlled strategy: every `set_reserves` runs one step of a
//! PID control loop and caches the resulting price; `price_a`/`price_b` read
//! that cache, so they are authoritative only right after a reserve mutation
//! — which the shared swap/add/remove algorithms guarantee, since each of
//! them ends in `set_reserves`.
//!
//! The control step's algebra is a pinned behavioural contract, kept as it
//! stands rather than derived from a closed-form control law.

use vstd::prelude::*;
use crate::dec::{
    Dec, SCALE_MAX, chk_div, chk_mul, dec_chk_div, dec_chk_mul, dec_sat_add, dec_sat_mul,
    dec_sat_sub, dec_sqrt, mul_fits, pow10, sat_add, sat_mul, sat_sub, sqrt_dec, sum_fits,
    zero_dec,
};
use crate::liquidity_pool::LiquidityPool;

verus! {

/// A PID controller: fixed gains, an unclamped integral accumulator and the
/// previous error, both advanced once per `compute` call.
#[derive(Clone, Copy, Debug)]
pub struct PIDController {
    pub kp: Dec,
    pub ki: Dec,
    pub kd: Dec,
    pub integral: Dec,
    pub prev_error: Dec,
}

/// What one control step returns:
/// `kp * error + ki * (integral + error) + kd * (error - prev_error)`.
pub open spec fn pid_out(c: PIDController, error: Dec) -> Dec {
    sat_add(
        sat_add(sat_mul(c.kp, error), sat_mul(c.ki, sat_add(c.integral, error))),
        sat_mul(c.kd, sat_sub(error, c.prev_error)),
    )
}

/// The controller state after one step: the integral has absorbed the error,
/// the error is remembered.
pub open spec fn pid_stepped(c: PIDController, error: Dec) -> PIDController {
    PIDController {
        kp: c.kp,
        ki: c.ki,
        kd: c.kd,
        integral: sat_add(c.integral, error),
        prev_error: error,
    }
}

/// The control step's output on exact values (in units of `10^-28`, scaled up
/// by `10^28` to absorb the products' unit).
pub open spec fn pid_out_num(kp: int, ki: int, kd: int, integral: int, prev: int, e: int) -> int {
    kp * e + ki * (integral + e) + kd * (e - prev)
}

/// No operation of the control step loses precision or saturates.
pub open spec fn pid_exact(c: PIDController, e: Dec) -> bool {
    mul_fits(c.kp, e) && sum_fits(c.integral, e) && mul_fits(c.ki, sat_add(c.integral, e))
        && sum_fits(e, c.prev_error) && mul_fits(c.kd, sat_sub(e, c.prev_error)) && sum_fits(
        sat_mul(c.kp, e),
        sat_mul(c.ki, sat_add(c.integral, e)),
    ) && sum_fits(
        sat_add(sat_mul(c.kp, e), sat_mul(c.ki, sat_add(c.integral, e))),
        sat_mul(c.kd, sat_sub(e, c.prev_error)),
    )
}

impl PIDController {
    /// The representation is in range.
    pub open spec fn inv(&self) -> bool {
        self.kp.wf() && self.ki.wf() && self.kd.wf() && self.integral.wf()
            && self.prev_error.wf()
    }

    /// A controller with the given gains and a blank history.
    pub fn new(kp: Dec, ki: Dec, kd: Dec) -> (r: Self)
        requires
            kp.wf(),
            ki.wf(),
            kd.wf(),
        ensures
            r.inv(),
            r.kp == kp,
            r.ki == ki,
            r.kd == kd,
            r.integral == zero_dec(),
            r.prev_error == zero_dec(),
    {
        PIDController {
            kp,
            ki,
            kd,
            integral: Dec::zero(),
            prev_error: Dec::zero(),
        }
    }

    /// One control step: accumulates the error into the integral, remembers
    /// it as the previous error, and returns the control signal.
    pub fn compute(&mut self, error: Dec) -> (r: Dec)
        requires
            old(self).inv(),
            error.wf(),
        ensures
            final(self).inv(),
            *final(self) == pid_stepped(*old(self), error),
            r == pid_out(*old(self), error),
            r.wf(),
            pid_exact(*old(self), error) ==> r.val() * pow10(SCALE_MAX as nat) == pid_out_num(
                old(self).kp.val(),
                old(self).ki.val(),
                old(self).kd.val(),
                old(self).integral.val(),
                old(self).prev_error.val(),
                error.val(),
            ),
    {
        let proportional_term = dec_sat_mul(&self.kp, &error);
        let new_integral = dec_sat_add(&self.integral, &error);
        self.integral = new_integral;
        let integral_term = dec_sat_mul(&self.ki, &new_integral);
        let delta = dec_sat_sub(&error, &self.prev_error);
        let derivative_term = dec_sat_mul(&self.kd, &delta);
        self.prev_error = error;
        let partial = dec_sat_add(&proportional_term, &integral_term);
        let out = dec_sat_add(&partial, &derivative_term);
        proof {
            if pid_exact(*old(self), error) {
                let ghost scale_unit = pow10(SCALE_MAX as nat);
                let ghost ki0 = old(self).ki.val();
                let ghost kd0 = old(self).kd.val();
                let ghost integral0 = old(self).integral.val();
                let ghost prev0 = old(self).prev_error.val();
                let ghost ni = new_integral.val();
                let ghost dl = delta.val();
                assert((proportional_term.val() + integral_term.val() + derivative_term.val())
                    * scale_unit == proportional_term.val() * scale_unit + integral_term.val()
                    * scale_unit + derivative_term.val() * scale_unit) by (nonlinear_arith);
                assert(ki0 * ni == ki0 * (integral0 + error.val())) by (nonlinear_arith)
                    requires
                        ni == integral0 + error.val(),
                ;
                assert(kd0 * dl == kd0 * (error.val() - prev0)) by (nonlinear_arith)
                    requires
                        dl == error.val() - prev0,
                ;
            }
        }
        out
    }
}

impl Default for PIDController {
    /// The stock tuning: `kp = 0.1`, `ki = 0.01`, `kd = 0.001`.
    fn default() -> (r: Self)
        ensures
            r.inv(),
            r.kp.val() == pow10(27),
            r.ki.val() == pow10(26),
            r.kd.val() == pow10(25),
            r.integral == zero_dec(),
            r.prev_error == zero_dec(),
    {
        PIDController::new(Dec::new(1, 1), Dec::new(1, 2), Dec::new(1, 3))
    }
}

/// A feedback step is genuinely stateful: two consecutive control steps fed
/// the same nonzero error give different outputs, because the second step's
/// integral has absorbed the first error — except where the derivative term's
/// change exactly cancels the integral's contribution (`ki * e == kd * (e -
/// prev)`; with the stock gains and a blank history that needs `e == 0`).
pub proof fn lemma_integral_accumulates(kp: int, ki: int, kd: int, integral: int, prev: int, e: int)
    requires
        e != 0,
        ki * e != kd * (e - prev),
    ensures
        pid_out_num(kp, ki, kd, integral, prev, e) != pid_out_num(kp, ki, kd, integral + e, e, e),
{
    assert(pid_out_num(kp, ki, kd, integral + e, e, e) - pid_out_num(kp, ki, kd, integral, prev, e)
        == ki * e - kd * (e - prev)) by (nonlinear_arith);
}

/// A two-asset pool whose price tracks a target through a PID control loop.
#[derive(Clone, Copy, Debug)]
pub struct PIDMarketMaker {
    pub reserves_a: Dec,
    pub reserves_b: Dec,
    pub target_price: Dec,
    pub pid_controller: PIDController,
    pub cached_price: Dec,
}

/// The control step's reserve estimate:
/// `total * sqrt(target_price) * reserves_a`, zero on any invalid
/// intermediate (negative-domain square root, overflow).
pub open spec fn pid_new_reserve_a(total: Dec, target: Dec, a: Dec) -> Dec {
    match sqrt_dec(target) {
        Some(s) => match chk_mul(total, s) {
            Some(p) => match chk_mul(p, a) {
                Some(q) => q,
                None => zero_dec(),
            },
            None => zero_dec(),
        },
        None => zero_dec(),
    }
}

/// The error signal fed to the controller:
/// `target - new_reserves_b / new_reserves_a`, with a zero-valued fallback on
/// an invalid division.
pub open spec fn pid_error(total: Dec, target: Dec, a: Dec) -> Dec {
    let new_a = pid_new_reserve_a(total, target, a);
    let new_b = sat_sub(total, new_a);
    let quotient = match chk_div(new_b, new_a) {
        Some(d) => d,
        None => zero_dec(),
    };
    sat_sub(target, quotient)
}

/// The ratio the control step settles on:
/// `reserves_b / (reserves_a + control_signal)`, zero on an invalid
/// denominator.
pub open spec fn pid_ratio(a: Dec, b: Dec, target: Dec, c: PIDController, total: Dec) -> Dec {
    let control = pid_out(c, pid_error(total, target, a));
    match chk_div(b, sat_add(a, control)) {
        Some(r) => r,
        None => zero_dec(),
    }
}

/// What `price_a` returns: `cached_price / amount`, zero for a zero amount or
/// an invalid division.
pub open spec fn pid_quote_a(cached: Dec, amount: Dec) -> Dec {
    if amount.val() == 0 {
        zero_dec()
    } else {
        match chk_div(cached, amount) {
            Some(p) => p,
            None => zero_dec(),
        }
    }
}

/// What `price_b` returns: `cached_price * amount`, zero for a zero amount or
/// an invalid multiplication.
pub open spec fn pid_quote_b(cached: Dec, amount: Dec) -> Dec {
    if amount.val() == 0 {
        zero_dec()
    } else {
        match chk_mul(cached, amount) {
            Some(p) => p,
            None => zero_dec(),
        }
    }
}

impl PIDMarketMaker {
    /// Runs the control step over the freshly written reserves and returns
    /// the new ratio; the controller advances one step.
    fn compute_ratio(&mut self, total: Dec) -> (r: Dec)
        requires
            old(self).inv(),
            total.wf(),
        ensures
            final(self).inv(),
            final(self).reserves_a == old(self).reserves_a,
            final(self).reserves_b == old(self).reserves_b,
            final(self).target_price == old(self).target_price,
            final(self).cached_price == old(self).cached_price,
            final(self).pid_controller == pid_stepped(
                old(self).pid_controller,
                pid_error(total, old(self).target_price, old(self).reserves_a),
            ),
            r == pid_ratio(
                old(self).reserves_a,
                old(self).reserves_b,
                old(self).target_price,
                old(self).pid_controller,
                total,
            ),
            r.wf(),
    {
        let new_a = match dec_sqrt(&self.target_price) {
            Some(s) => match dec_chk_mul(&total, &s) {
                Some(p) => match dec_chk_mul(&p, &self.reserves_a) {
                    Some(q) => q,
                    None => Dec::zero(),
                },
                None => Dec::zero(),
            },
            None => Dec::zero(),
        };
        let new_b = dec_sat_sub(&total, &new_a);
        let quotient = match dec_chk_div(&new_b, &new_a) {
            Some(d) => d,
            None => Dec::zero(),
        };
        let error = dec_sat_sub(&self.target_price, &quotient);
        let control_signal = self.pid_controller.compute(error);
        let denom = dec_sat_add(&self.reserves_a, &control_signal);
        match dec_chk_div(&self.reserves_b, &denom) {
            Some(ratio) => ratio,
            None => Dec::zero(),
        }
    }
}

impl Default for PIDMarketMaker {
    /// Empty reserves, a target price of one, the stock controller tuning,
    /// and no cached price yet.
    fn default() -> (r: Self)
        ensures
            r.inv(),
            r.res_a().val() == 0,
            r.res_b().val() == 0,
            r.target_price.val() == pow10(SCALE_MAX as nat),
            r.cached_price == zero_dec(),
            r.pid_controller.kp.val() == pow10(27),
            r.pid_controller.ki.val() == pow10(26),
            r.pid_controller.kd.val() == pow10(25),
            r.pid_controller.integral == zero_dec(),
            r.pid_controller.prev_error == zero_dec(),
    {
        PIDMarketMaker {
            reserves_a: Dec::zero(),
            reserves_b: Dec::zero(),
            target_price: Dec::one(),
            pid_controller: PIDController::default(),
            cached_price: Dec::zero(),
        }
    }
}

impl LiquidityPool for PIDMarketMaker {
    open spec fn res_a(&self) -> Dec {
        self.reserves_a
    }

    open spec fn res_b(&self) -> Dec {
        self.reserves_b
    }

    open spec fn inv(&self) -> bool {
        self.reserves_a.wf() && self.reserves_b.wf() && self.target_price.wf()
            && self.pid_controller.inv() && self.cached_price.wf()
    }

    open spec fn after_set(&self, a: Dec, b: Dec) -> Self {
        let total = sat_add(a, b);
        if total.val() == 0 {
            PIDMarketMaker {
                reserves_a: a,
                reserves_b: b,
                target_price: self.target_price,
                pid_controller: self.pid_controller,
                cached_price: zero_dec(),
            }
        } else {
            let ratio = pid_ratio(a, b, self.target_price, self.pid_controller, total);
            PIDMarketMaker {
                reserves_a: a,
                reserves_b: b,
                target_price: self.target_price,
                pid_controller: pid_stepped(
                    self.pid_controller,
                    pid_error(total, self.target_price, a),
                ),
                cached_price: match chk_mul(ratio, self.target_price) {
                    Some(c) => c,
                    None => zero_dec(),
                },
            }
        }
    }

    open spec fn quote_a(&self, amount_a: Dec) -> Dec {
        pid_quote_a(self.cached_price, amount_a)
    }

    open spec fn quote_b(&self, amount_b: Dec) -> Dec {
        pid_quote_b(self.cached_price, amount_b)
    }

    open spec fn nonneg_quotes(&self) -> bool {
        self.cached_price.val() >= 0
    }

    open spec fn blocks_excessive(&self) -> bool {
        false
    }

    fn set_reserves(&mut self, reserves_a: Dec, reserves_b: Dec) {
        self.reserves_a = reserves_a;
        self.reserves_b = reserves_b;
        let total = dec_sat_add(&reserves_a, &reserves_b);
        if total.is_zero() {
            self.cached_price = Dec::zero();
        } else {
            let ratio = self.compute_ratio(total);
            self.cached_price = match dec_chk_mul(&ratio, &self.target_price) {
                Some(c) => c,
                None => Dec::zero(),
            };
        }
    }

    fn reserves(&self) -> (r: (Dec, Dec)) {
        (self.reserves_a, self.reserves_b)
    }

    fn price_a(&self, amount_a: Dec) -> (r: Dec) {
        if amount_a.is_zero() {
            return Dec::zero();
        }
        match dec_chk_div(&self.cached_price, &amount_a) {
            Some(p) => p,
            None => Dec::zero(),
        }
    }

    fn price_b(&self, amount_b: Dec) -> (r: Dec) {
        if amount_b.is_zero() {
            return Dec::zero();
        }
        match dec_chk_mul(&self.cached_price, &amount_b) {
            Some(p) => p,
            None => Dec::zero(),
        }
    }
}

} // verus!
