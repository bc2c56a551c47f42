use amm_core::dec::Dec;
use amm_core::liquidity_pool::LiquidityPool;
use amm_core::pidmm::{PIDController, PIDMarketMaker};

#[test]
fn pidmm_test_add_liquidity() {
    let mut pool = PIDMarketMaker::default();
    pool.set_reserves(Dec::new(100, 0), Dec::new(100, 0));
    let (a, b) = pool.reserves();
    assert!(a.eq_val(&Dec::new(100, 0)));
    assert!(b.eq_val(&Dec::new(100, 0)));
}

#[test]
fn pidmm_test_remove_liquidity() {
    let mut pool = PIDMarketMaker::default();
    pool.set_reserves(Dec::new(100, 0), Dec::new(100, 0));
    let (a, b) = pool.reserves();
    assert!(a.eq_val(&Dec::new(100, 0)));
    assert!(b.eq_val(&Dec::new(100, 0)));
}

#[test]
fn pidmm_test_price_a() {
    let mut pool = PIDMarketMaker::default();
    pool.set_reserves(Dec::new(100, 0), Dec::new(100, 0));
    let price = pool.price_a(Dec::new(1, 0)).round2();
    assert!(price.eq_val(&Dec::new(1, 0)));
}

#[test]
fn pidmm_test_swap_a() {
    let mut pool = PIDMarketMaker::default();
    pool.set_reserves(Dec::new(100, 0), Dec::new(100, 0));
    pool.swap_a(Dec::new(1, 0));
    let (a, b) = pool.reserves_rounded();
    assert!(a.eq_val(&Dec::new(99, 0)));
    assert!(b.eq_val(&Dec::new(101, 0)));
}

#[test]
fn pidmm_test_price_b() {
    let mut pool = PIDMarketMaker::default();
    pool.set_reserves(Dec::new(100, 0), Dec::new(100, 0));
    let price = pool.price_b(Dec::new(1, 0)).round2();
    assert!(price.eq_val(&Dec::new(1, 0)));
}

#[test]
fn pidmm_test_swap_b() {
    let mut pool = PIDMarketMaker::default();
    pool.set_reserves(Dec::new(100, 0), Dec::new(100, 0));
    pool.swap_b(Dec::new(1, 0));
    let (a, b) = pool.reserves_rounded();
    assert!(a.eq_val(&Dec::new(101, 0)));
    assert!(b.eq_val(&Dec::new(99, 0)));
}

#[test]
fn pid_controller_repeats_differ_on_same_error() {
    // Feeding the same nonzero error twice gives different outputs: the
    // integral accumulates between the calls.
    let mut controller = PIDController::default();
    let first = controller.compute(Dec::new(5, 1));
    let second = controller.compute(Dec::new(5, 1));
    assert!(!first.eq_val(&second));

    // With the stock gains the two outputs are exact:
    // 0.1*0.5 + 0.01*0.5 + 0.001*0.5 = 0.0555, then 0.05 + 0.01*1.0 = 0.06.
    assert!(first.eq_val(&Dec::new(555, 4)));
    assert!(second.eq_val(&Dec::new(6, 2)));
}

#[test]
fn pid_controller_pure_integral_accumulates() {
    // With only an integral gain the output is the running sum of errors.
    let mut controller = PIDController::new(Dec::new(0, 0), Dec::new(1, 0), Dec::new(0, 0));
    let first = controller.compute(Dec::new(3, 0));
    let second = controller.compute(Dec::new(3, 0));
    let third = controller.compute(Dec::new(3, 0));
    assert!(first.eq_val(&Dec::new(3, 0)));
    assert!(second.eq_val(&Dec::new(6, 0)));
    assert!(third.eq_val(&Dec::new(9, 0)));
}

#[test]
fn pid_controller_derivative_reacts_to_change() {
    // With only a derivative gain the output tracks the error's change.
    let mut controller = PIDController::new(Dec::new(0, 0), Dec::new(0, 0), Dec::new(2, 0));
    let first = controller.compute(Dec::new(4, 0));
    let second = controller.compute(Dec::new(1, 0));
    assert!(first.eq_val(&Dec::new(8, 0)));
    assert!(second.eq_val(&Dec::new(-6, 0)));
}

#[test]
fn pidmm_zero_total_clears_the_cache() {
    let mut pool = PIDMarketMaker::default();
    pool.set_reserves(Dec::new(100, 0), Dec::new(100, 0));
    pool.set_reserves(Dec::new(0, 0), Dec::new(0, 0));
    assert!(pool.price_a(Dec::new(1, 0)).eq_val(&Dec::new(0, 0)));
    assert!(pool.price_b(Dec::new(1, 0)).eq_val(&Dec::new(0, 0)));
}

#[test]
fn pidmm_zero_amount_quotes_zero() {
    let mut pool = PIDMarketMaker::default();
    pool.set_reserves(Dec::new(100, 0), Dec::new(100, 0));
    assert!(pool.price_a(Dec::new(0, 0)).eq_val(&Dec::new(0, 0)));
    assert!(pool.price_b(Dec::new(0, 0)).eq_val(&Dec::new(0, 0)));
}

#[test]
fn pidmm_square_root_shapes_the_estimate() {
    // With a target of 0.25 the control step works from sqrt(0.25) = 0.5:
    // set_reserves(2, 2) makes the estimated reserve split exact (the error
    // is 0.25), the control signal 0.02775, and the cached price
    // 2 / 2.02775 * 0.25, which rounds to 0.25.  Working from the target
    // itself instead of its root would round to 0.26.
    let mut pool = PIDMarketMaker {
        reserves_a: Dec::new(0, 0),
        reserves_b: Dec::new(0, 0),
        target_price: Dec::new(25, 2),
        pid_controller: PIDController::default(),
        cached_price: Dec::new(0, 0),
    };
    pool.set_reserves(Dec::new(2, 0), Dec::new(2, 0));
    let price = pool.price_b(Dec::new(1, 0)).round2();
    assert!(price.eq_val(&Dec::new(25, 2)));
}
