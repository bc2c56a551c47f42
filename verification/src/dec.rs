//! Decimal quantities.
//!
//! A [`Dec`] is a finite decimal number `(-1)^neg * mant / 10^scale`, exactly
//! the value set of `rust_decimal::Decimal`: a coefficient below `2^96` and up
//! to 28 stored fractional digits.  Every value is an integer multiple of
//! `10^-28`, so contracts speak of [`Dec::val`], the value in units of
//! `10^-28`, which is always an integer.
//!
//! Construction, comparison and the zero/sign tests are verified here.  The
//! arithmetic itself is `rust_decimal`'s, reached through trusted wrappers at
//! the bottom of this file: each wrapper pins its result to an uninterpreted
//! name (the operation is deterministic in its operands) and states the facts
//! that callers rely on — sign preservation, behaviour on zero, and exactness
//! whenever both operands fit a common scale.

use vstd::prelude::*;
use rust_decimal::Decimal;
use rust_decimal::MathematicalOps;
use rust_decimal::RoundingStrategy;

verus! {

/// Largest coefficient a decimal can carry: `2^96 - 1`.
pub const MANT_MAX: u128 = 79228162514264337593543950335;

/// Largest number of stored fractional digits.
pub const SCALE_MAX: u32 = 28;

/// A finite decimal number `(-1)^neg * mant / 10^scale`.
#[derive(Clone, Copy, Debug)]
pub struct Dec {
    pub neg: bool,
    pub mant: u128,
    pub scale: u32,
}

/// `10^n`.
pub open spec fn pow10(n: nat) -> int
    decreases n,
{
    if n == 0 {
        1
    } else {
        10 * pow10((n - 1) as nat)
    }
}

/// Magnitude of `x`.
pub open spec fn abs_val(x: int) -> int {
    if x >= 0 {
        x
    } else {
        -x
    }
}

impl Dec {
    /// The representation is in range: coefficient below `2^96`, at most 28
    /// fractional digits.
    pub open spec fn wf(self) -> bool {
        self.mant <= MANT_MAX && self.scale <= SCALE_MAX
    }

    /// The magnitude of the value, in units of `10^-28`.
    pub open spec fn mag(self) -> int {
        self.mant * pow10((SCALE_MAX - self.scale) as nat)
    }

    /// The value, in units of `10^-28`.
    pub open spec fn val(self) -> int {
        if self.neg {
            -self.mag()
        } else {
            self.mag()
        }
    }
}

/// The canonical zero: positive, coefficient 0, scale 0.
pub open spec fn zero_dec() -> Dec {
    Dec { neg: false, mant: 0, scale: 0 }
}

/// The larger of the two scales.
pub open spec fn smax(a: Dec, b: Dec) -> u32 {
    if a.scale >= b.scale {
        a.scale
    } else {
        b.scale
    }
}

/// Largest magnitude representable at scale `s` (in units of `10^-28`).
pub open spec fn room(s: u32) -> int
    recommends
        s <= SCALE_MAX,
{
    MANT_MAX * pow10((SCALE_MAX - s) as nat)
}

/// Both operands, and hence their sum and difference, can be carried exactly
/// at their common scale: addition and subtraction lose no precision.
pub open spec fn sum_fits(a: Dec, b: Dec) -> bool {
    abs_val(a.val()) + abs_val(b.val()) <= room(smax(a, b))
}

/// The product of the coefficients and the sum of the scales are both in
/// range: multiplication loses no precision.
pub open spec fn mul_fits(a: Dec, b: Dec) -> bool {
    a.scale + b.scale <= SCALE_MAX && a.mant * b.mant <= MANT_MAX
}

proof fn lemma_pow10_pos(n: nat)
    ensures
        pow10(n) >= 1,
    decreases n,
{
    if n > 0 {
        lemma_pow10_pos((n - 1) as nat);
    }
}

proof fn lemma_pow10_add(a: nat, b: nat)
    ensures
        pow10(a + b) == pow10(a) * pow10(b),
    decreases a,
{
    if a == 0 {
    } else {
        lemma_pow10_add((a - 1) as nat, b);
        assert(pow10((a + b - 1) as nat) == pow10((a - 1) as nat) * pow10(b));
        assert(10 * (pow10((a - 1) as nat) * pow10(b)) == (10 * pow10((a - 1) as nat)) * pow10(b))
            by (nonlinear_arith);
    }
}

proof fn lemma_mag_bounds(d: Dec)
    ensures
        d.mag() >= 0,
        d.mant > 0 ==> d.mag() >= 1,
        d.mant == 0 ==> d.mag() == 0,
{
    lemma_pow10_pos((SCALE_MAX - d.scale) as nat);
    assert(d.mant * pow10((SCALE_MAX - d.scale) as nat) >= 0 && (d.mant > 0 ==> d.mant * pow10(
        (SCALE_MAX - d.scale) as nat,
    ) >= 1) && (d.mant == 0 ==> d.mant * pow10((SCALE_MAX - d.scale) as nat) == 0))
        by (nonlinear_arith)
        requires
            pow10((SCALE_MAX - d.scale) as nat) >= 1,
            d.mant >= 0,
    ;
}

proof fn lemma_pow10_mono(a: nat, b: nat)
    requires
        a <= b,
    ensures
        pow10(a) <= pow10(b),
    decreases b,
{
    if a < b {
        lemma_pow10_mono(a, (b - 1) as nat);
        lemma_pow10_pos((b - 1) as nat);
    }
}

proof fn lemma_pow10_28()
    ensures
        pow10(28) == 10000000000000000000000000000,
{
    reveal_with_fuel(pow10, 29);
}

/// `10^e` as a machine integer.
fn pow10_exec(e: u32) -> (r: u128)
    requires
        e <= SCALE_MAX,
    ensures
        r == pow10(e as nat),
{
    let mut i: u32 = 0;
    let mut r: u128 = 1;
    while i < e
        invariant
            i <= e,
            e <= SCALE_MAX,
            r == pow10(i as nat),
        decreases e - i,
    {
        proof {
            lemma_pow10_28();
            lemma_pow10_mono((i + 1) as nat, 28);
            assert(pow10((i + 1) as nat) == 10 * pow10(i as nat));
        }
        r = r * 10;
        i = i + 1;
    }
    r
}

impl Dec {
    /// `num / 10^scale`.
    pub fn new(num: i64, scale: u32) -> (r: Dec)
        requires
            scale <= SCALE_MAX,
        ensures
            r.wf(),
            r.scale == scale,
            r.val() == num * pow10((SCALE_MAX - scale) as nat),
    {
        let mant: u128 = if num < 0 {
            (-(num as i128)) as u128
        } else {
            num as u128
        };
        let r = Dec { neg: num < 0, mant, scale };
        proof {
            lemma_pow10_pos((SCALE_MAX - scale) as nat);
            if num < 0 {
                assert(-((-num) * pow10((SCALE_MAX - scale) as nat)) == num * pow10(
                    (SCALE_MAX - scale) as nat,
                )) by (nonlinear_arith);
            }
        }
        r
    }

    /// The canonical zero.
    pub fn zero() -> (r: Dec)
        ensures
            r == zero_dec(),
            r.wf(),
            r.val() == 0,
    {
        Dec { neg: false, mant: 0, scale: 0 }
    }

    /// One.
    pub fn one() -> (r: Dec)
        ensures
            r.wf(),
            r.val() == pow10(SCALE_MAX as nat),
    {
        proof {
            lemma_pow10_pos(SCALE_MAX as nat);
        }
        Dec { neg: false, mant: 1, scale: 0 }
    }

    /// The value is zero.
    pub fn is_zero(&self) -> (r: bool)
        requires
            self.wf(),
        ensures
            r == (self.val() == 0),
    {
        proof {
            lemma_mag_bounds(*self);
        }
        self.mant == 0
    }

    /// The value is strictly negative.
    pub fn is_negative(&self) -> (r: bool)
        requires
            self.wf(),
        ensures
            r == (self.val() < 0),
    {
        proof {
            lemma_mag_bounds(*self);
        }
        self.neg && self.mant > 0
    }

    /// The value rounded half away from zero to two fractional digits.
    pub fn round2(&self) -> (r: Dec)
        requires
            self.wf(),
        ensures
            r.wf(),
            r.scale <= 2,
            r.val() == round2_val(self.val()),
    {
        dec_round2(self)
    }
}

/// Compares the magnitudes of two decimals: negative result for `<`, zero for
/// `==`, positive for `>`.  Works on the coefficients, raising the one with
/// the smaller scale to the common scale.
fn mag_cmp(a: &Dec, b: &Dec) -> (r: i32)
    requires
        a.wf(),
        b.wf(),
    ensures
        (r == 0) == (a.mag() == b.mag()),
        (r < 0) == (a.mag() < b.mag()),
        (r > 0) == (a.mag() > b.mag()),
{
    let (lo, hi, flip) = if a.scale <= b.scale {
        (a, b, false)
    } else {
        (b, a, true)
    };
    let d: u32 = hi.scale - lo.scale;
    let p: u128 = pow10_exec(d);
    proof {
        lemma_pow10_pos(d as nat);
        lemma_pow10_pos((SCALE_MAX - hi.scale) as nat);
        lemma_pow10_add(d as nat, (SCALE_MAX - hi.scale) as nat);
        assert(lo.mant * (pow10(d as nat) * pow10((SCALE_MAX - hi.scale) as nat)) == (lo.mant
            * pow10(d as nat)) * pow10((SCALE_MAX - hi.scale) as nat)) by (nonlinear_arith);
    }
    let ghost f: int = pow10((SCALE_MAX - hi.scale) as nat);
    assert(lo.mag() == (lo.mant * pow10(d as nat)) * f);
    assert(hi.mag() == hi.mant * f);
    let cmp: i32 = if lo.mant > u128::MAX / p {
        proof {
            let q: int = (u128::MAX as int) / (p as int);
            assert(lo.mant * p > u128::MAX) by (nonlinear_arith)
                requires
                    p >= 1,
                    lo.mant > q,
                    q == (u128::MAX as int) / (p as int),
            ;
            assert(lo.mant * p > hi.mant);
            assert((lo.mant * pow10(d as nat)) * f > hi.mant * f) by (nonlinear_arith)
                requires
                    lo.mant * pow10(d as nat) > hi.mant,
                    f >= 1,
            ;
        }
        1
    } else {
        proof {
            let q: int = (u128::MAX as int) / (p as int);
            assert(lo.mant * p <= q * p && q * p <= u128::MAX) by (nonlinear_arith)
                requires
                    p >= 1,
                    lo.mant <= q,
                    q == (u128::MAX as int) / (p as int),
            ;
        }
        let raised: u128 = lo.mant * p;
        proof {
            assert((raised < hi.mant ==> raised * f < hi.mant * f) && (raised == hi.mant
                ==> raised * f == hi.mant * f) && (raised > hi.mant ==> raised * f > hi.mant * f))
                by (nonlinear_arith)
                requires
                    f >= 1,
            ;
        }
        if raised < hi.mant {
            -1
        } else if raised == hi.mant {
            0
        } else {
            1
        }
    };
    if flip {
        0 - cmp
    } else {
        cmp
    }
}

impl Dec {
    /// The value is strictly below `other`'s.
    pub fn lt_val(&self, other: &Dec) -> (r: bool)
        requires
            self.wf(),
            other.wf(),
        ensures
            r == (self.val() < other.val()),
    {
        proof {
            lemma_mag_bounds(*self);
            lemma_mag_bounds(*other);
        }
        let sn = self.is_negative();
        let on = other.is_negative();
        if sn && !on {
            true
        } else if !sn && on {
            false
        } else if !sn && !on {
            mag_cmp(self, other) < 0
        } else {
            mag_cmp(self, other) > 0
        }
    }

    /// The values are equal (the representations may differ in scale).
    pub fn eq_val(&self, other: &Dec) -> (r: bool)
        requires
            self.wf(),
            other.wf(),
        ensures
            r == (self.val() == other.val()),
    {
        proof {
            lemma_mag_bounds(*self);
            lemma_mag_bounds(*other);
        }
        let sn = self.is_negative();
        let on = other.is_negative();
        if sn != on {
            false
        } else {
            mag_cmp(self, other) == 0
        }
    }
}

// ---------------------------------------------------------------------------
// Trusted boundary: rust_decimal's arithmetic.
//
// Each operation below is deterministic in its operands, so its result is
// given an uninterpreted name; the wrapper's contract pins the result to the
// name and records what rust_decimal's source shows of it.
// ---------------------------------------------------------------------------

/// What `Decimal::saturating_add` returns.
pub uninterp spec fn sat_add(a: Dec, b: Dec) -> Dec;

/// What `Decimal::saturating_sub` returns.
pub uninterp spec fn sat_sub(a: Dec, b: Dec) -> Dec;

/// What `Decimal::saturating_mul` returns.
pub uninterp spec fn sat_mul(a: Dec, b: Dec) -> Dec;

/// What `Decimal::checked_mul` returns.
pub uninterp spec fn chk_mul(a: Dec, b: Dec) -> Option<Dec>;

/// What `Decimal::checked_div` returns.
pub uninterp spec fn chk_div(a: Dec, b: Dec) -> Option<Dec>;

/// What `MathematicalOps::sqrt` returns.
pub uninterp spec fn sqrt_dec(a: Dec) -> Option<Dec>;

/// Relies on `Decimal::saturating_add`: the exact sum where both operands fit
/// a common scale, and otherwise a clamped or precision-reduced sum; the sum
/// of non-negatives stays non-negative, and a zero operand leaves the other
/// value unchanged.
#[verifier::external_body]
pub(crate) fn dec_sat_add(a: &Dec, b: &Dec) -> (r: Dec)
    requires
        a.wf(),
        b.wf(),
    ensures
        r == sat_add(*a, *b),
        r.wf(),
        a.val() >= 0 && b.val() >= 0 ==> r.val() >= 0,
        a.val() == 0 ==> r.val() == b.val(),
        b.val() == 0 ==> r.val() == a.val(),
        sum_fits(*a, *b) ==> r.val() == a.val() + b.val() && r.scale <= smax(*a, *b),
{
    let x = Decimal::from_i128_with_scale(
        if a.neg { -(a.mant as i128) } else { a.mant as i128 },
        a.scale,
    );
    let y = Decimal::from_i128_with_scale(
        if b.neg { -(b.mant as i128) } else { b.mant as i128 },
        b.scale,
    );
    let s = x.saturating_add(y);
    let m: i128 = s.mantissa();
    Dec { neg: m < 0, mant: m.unsigned_abs(), scale: s.scale() }
}

/// Relies on `Decimal::saturating_sub`: the exact difference where both
/// operands fit a common scale; never negative when the first value is at
/// least the second (clamping goes to `MAX` there, rounding keeps the sign);
/// subtracting zero leaves the value unchanged.
#[verifier::external_body]
pub(crate) fn dec_sat_sub(a: &Dec, b: &Dec) -> (r: Dec)
    requires
        a.wf(),
        b.wf(),
    ensures
        r == sat_sub(*a, *b),
        r.wf(),
        a.val() >= b.val() ==> r.val() >= 0,
        b.val() == 0 ==> r.val() == a.val(),
        sum_fits(*a, *b) ==> r.val() == a.val() - b.val() && r.scale <= smax(*a, *b),
{
    let x = Decimal::from_i128_with_scale(
        if a.neg { -(a.mant as i128) } else { a.mant as i128 },
        a.scale,
    );
    let y = Decimal::from_i128_with_scale(
        if b.neg { -(b.mant as i128) } else { b.mant as i128 },
        b.scale,
    );
    let s = x.saturating_sub(y);
    let m: i128 = s.mantissa();
    Dec { neg: m < 0, mant: m.unsigned_abs(), scale: s.scale() }
}

/// Relies on `Decimal::saturating_mul`: zero on a zero operand, the exact
/// product where coefficients and scales fit, and the product's sign in every
/// case (clamping picks `MAX`/`MIN` by the sign pair, rounding keeps the
/// magnitude's sign).
#[verifier::external_body]
pub(crate) fn dec_sat_mul(a: &Dec, b: &Dec) -> (r: Dec)
    requires
        a.wf(),
        b.wf(),
    ensures
        r == sat_mul(*a, *b),
        r.wf(),
        a.val() == 0 || b.val() == 0 ==> r.val() == 0,
        (a.val() >= 0 && b.val() >= 0) || (a.val() <= 0 && b.val() <= 0) ==> r.val() >= 0,
        mul_fits(*a, *b) ==> r.val() * pow10(SCALE_MAX as nat) == a.val() * b.val() && r.scale
            <= a.scale + b.scale,
{
    let x = Decimal::from_i128_with_scale(
        if a.neg { -(a.mant as i128) } else { a.mant as i128 },
        a.scale,
    );
    let y = Decimal::from_i128_with_scale(
        if b.neg { -(b.mant as i128) } else { b.mant as i128 },
        b.scale,
    );
    let s = x.saturating_mul(y);
    let m: i128 = s.mantissa();
    Dec { neg: m < 0, mant: m.unsigned_abs(), scale: s.scale() }
}

/// Relies on `Decimal::checked_mul`: `None` only on overflow, zero on a zero
/// operand, the exact product where coefficients and scales fit, and the
/// product's sign in every case.
#[verifier::external_body]
pub(crate) fn dec_chk_mul(a: &Dec, b: &Dec) -> (r: Option<Dec>)
    requires
        a.wf(),
        b.wf(),
    ensures
        r == chk_mul(*a, *b),
        r matches Some(c) ==> c.wf(),
        a.val() == 0 || b.val() == 0 ==> r == Some(zero_dec()),
        (a.val() >= 0 && b.val() >= 0) || (a.val() <= 0 && b.val() <= 0) ==> (r matches Some(c)
            ==> c.val() >= 0),
        mul_fits(*a, *b) ==> r is Some && r->Some_0.val() * pow10(SCALE_MAX as nat) == a.val()
            * b.val() && r->Some_0.scale <= a.scale + b.scale,
{
    let x = Decimal::from_i128_with_scale(
        if a.neg { -(a.mant as i128) } else { a.mant as i128 },
        a.scale,
    );
    let y = Decimal::from_i128_with_scale(
        if b.neg { -(b.mant as i128) } else { b.mant as i128 },
        b.scale,
    );
    let s = x.checked_mul(y)?;
    let m: i128 = s.mantissa();
    Some(Dec { neg: m < 0, mant: m.unsigned_abs(), scale: s.scale() })
}

/// Relies on `Decimal::checked_div`: `None` on a zero divisor or overflow,
/// zero for a zero dividend, and the quotient's sign in every case.
#[verifier::external_body]
pub(crate) fn dec_chk_div(a: &Dec, b: &Dec) -> (r: Option<Dec>)
    requires
        a.wf(),
        b.wf(),
    ensures
        r == chk_div(*a, *b),
        r matches Some(c) ==> c.wf(),
        b.val() == 0 ==> r is None,
        a.val() == 0 && b.val() != 0 ==> r == Some(zero_dec()),
        (a.val() >= 0 && b.val() > 0) || (a.val() <= 0 && b.val() < 0) ==> (r matches Some(c)
            ==> c.val() >= 0),
{
    let x = Decimal::from_i128_with_scale(
        if a.neg { -(a.mant as i128) } else { a.mant as i128 },
        a.scale,
    );
    let y = Decimal::from_i128_with_scale(
        if b.neg { -(b.mant as i128) } else { b.mant as i128 },
        b.scale,
    );
    let s = x.checked_div(y)?;
    let m: i128 = s.mantissa();
    Some(Dec { neg: m < 0, mant: m.unsigned_abs(), scale: s.scale() })
}

/// Relies on `MathematicalOps::sqrt` (feature `maths`): `None` exactly for
/// negative values, zero for zero, a non-negative root otherwise.
#[verifier::external_body]
pub(crate) fn dec_sqrt(a: &Dec) -> (r: Option<Dec>)
    requires
        a.wf(),
    ensures
        r == sqrt_dec(*a),
        r matches Some(c) ==> c.wf() && c.val() >= 0,
        a.val() < 0 ==> r is None,
        a.val() == 0 ==> r == Some(zero_dec()),
{
    let x = Decimal::from_i128_with_scale(
        if a.neg { -(a.mant as i128) } else { a.mant as i128 },
        a.scale,
    );
    let s = x.sqrt()?;
    let m: i128 = s.mantissa();
    Some(Dec { neg: m < 0, mant: m.unsigned_abs(), scale: s.scale() })
}

/// Rounding half away from zero to two fractional digits, on values in units
/// of `10^-28`.
pub open spec fn round2_val(x: int) -> int {
    if x >= 0 {
        ((x + 50000000000000000000000000) / 100000000000000000000000000) * 100000000000000000000000000
    } else {
        -(((-x + 50000000000000000000000000) / 100000000000000000000000000) * 100000000000000000000000000)
    }
}

/// Relies on `Decimal::round_dp_with_strategy` with `MidpointAwayFromZero`:
/// rounds half away from zero to two fractional digits, returning the value
/// unchanged when it already has at most two.
#[verifier::external_body]
pub(crate) fn dec_round2(a: &Dec) -> (r: Dec)
    requires
        a.wf(),
    ensures
        r.wf(),
        r.scale <= 2,
        r.val() == round2_val(a.val()),
{
    let x = Decimal::from_i128_with_scale(
        if a.neg { -(a.mant as i128) } else { a.mant as i128 },
        a.scale,
    );
    let s = x.round_dp_with_strategy(2, RoundingStrategy::MidpointAwayFromZero);
    let m: i128 = s.mantissa();
    Dec { neg: m < 0, mant: m.unsigned_abs(), scale: s.scale() }
}

/// A rounded value carries exactly two decimal places: it is a whole multiple
/// of one hundredth, whatever the input's internal precision.
pub proof fn lemma_round2_is_two_places(x: int)
    ensures
        round2_val(x) % 100000000000000000000000000 == 0,
{
    if x >= 0 {
        vstd::arithmetic::div_mod::lemma_mod_multiples_basic(
            (x + 50000000000000000000000000) / 100000000000000000000000000,
            100000000000000000000000000,
        );
    } else {
        vstd::arithmetic::div_mod::lemma_mod_multiples_basic(
            -((-x + 50000000000000000000000000) / 100000000000000000000000000),
            100000000000000000000000000,
        );
    }
}

/// The difference clamped at zero, as a value: what removing `y` from a
/// reserve of `x` leaves.
pub open spec fn sub0_val(x: int, y: int) -> int {
    if x < y {
        0
    } else {
        x - y
    }
}

/// How a reserve shrinks: the saturating difference, clamped at zero so that
/// a reserve never goes negative.
pub open spec fn sub_floor_zero_spec(a: Dec, b: Dec) -> Dec {
    if a.val() < b.val() {
        zero_dec()
    } else {
        sat_sub(a, b)
    }
}

/// Subtracts `b` from `a`, clamping the result at zero.
pub fn sub_floor_zero(a: &Dec, b: &Dec) -> (r: Dec)
    requires
        a.wf(),
        b.wf(),
    ensures
        r == sub_floor_zero_spec(*a, *b),
        r.wf(),
        r.val() >= 0,
        a.val() < b.val() ==> r.val() == 0,
        a.val() >= b.val() && sum_fits(*a, *b) ==> r.val() == a.val() - b.val(),
        sum_fits(*a, *b) ==> r.val() == sub0_val(a.val(), b.val()),
        b.val() == 0 ==> r.val() == sub0_val(a.val(), 0),
{
    if a.lt_val(b) {
        Dec::zero()
    } else {
        dec_sat_sub(a, b)
    }
}

} // verus!
