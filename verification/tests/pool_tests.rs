use amm_core::dec::Dec;
use amm_core::pool::LiquidityPool;

#[test]
fn main_test_add_liquidity() {
    // Create a new liquidity pool with default values.
    let mut pool = LiquidityPool::default();

    // Add 100 units of token A and 200 units of token B to the pool.
    pool.add_liquidity(Dec::new(100, 0), Dec::new(200, 0));

    let (a, b) = pool.reserves();
    assert!(a.eq_val(&Dec::new(100, 0)));
    assert!(b.eq_val(&Dec::new(200, 0)));
}

#[test]
fn main_test_remove_liquidity() {
    let mut pool = LiquidityPool::default();
    pool.add_liquidity(Dec::new(100, 0), Dec::new(200, 0));

    // Remove 10 units of token A and 20 units of token B from the pool.
    pool.remove_liquidity(Dec::new(10, 0), Dec::new(20, 0));

    let (a, b) = pool.reserves();
    assert!(a.eq_val(&Dec::new(90, 0)));
    assert!(b.eq_val(&Dec::new(180, 0)));
}

#[test]
fn main_test_price_a() {
    let mut pool = LiquidityPool::default();
    pool.add_liquidity(Dec::new(100, 0), Dec::new(200, 0));

    let price = pool.price_a(Dec::new(10, 0)).round2();
    assert!(price.eq_val(&Dec::new(222, 2)));
}

#[test]
fn main_test_swap_a() {
    let mut pool = LiquidityPool::default();
    pool.add_liquidity(Dec::new(100, 0), Dec::new(200, 0));

    // Swap 10 units of token B for token A.
    let cost_a = pool.swap_b(Dec::new(10, 0)).round2();
    assert!(cost_a.eq_val(&Dec::new(526, 2)));

    let (a, b) = pool.reserves();
    assert!(a.round2().eq_val(&Dec::new(10526, 2)));
    assert!(b.round2().eq_val(&Dec::new(190, 0)));
}

#[test]
fn main_test_price_b() {
    let mut pool = LiquidityPool::default();
    pool.add_liquidity(Dec::new(100, 0), Dec::new(200, 0));

    let price = pool.price_b(Dec::new(10, 0)).round2();
    assert!(price.eq_val(&Dec::new(53, 2)));
}

#[test]
fn main_test_swap_b() {
    let mut pool = LiquidityPool::default();
    pool.add_liquidity(Dec::new(100, 0), Dec::new(200, 0));

    // Swap 10 units of token A for token B.
    let cost_b = pool.swap_a(Dec::new(10, 0)).round2();
    assert!(cost_b.eq_val(&Dec::new(2222, 2)));

    let (a, b) = pool.reserves();
    assert!(a.round2().eq_val(&Dec::new(90, 0)));
    assert!(b.round2().eq_val(&Dec::new(22222, 2)));
}

#[test]
fn pool_add_then_remove_restores_reserves() {
    // Adding liquidity and removing the same amounts, with nothing in
    // between, restores the reserves exactly — fractional amounts included.
    let mut pool = LiquidityPool::default();
    pool.add_liquidity(Dec::new(100, 0), Dec::new(200, 0));
    pool.add_liquidity(Dec::new(75, 1), Dec::new(325, 2));
    pool.remove_liquidity(Dec::new(75, 1), Dec::new(325, 2));
    let (a, b) = pool.reserves();
    assert!(a.eq_val(&Dec::new(100, 0)));
    assert!(b.eq_val(&Dec::new(200, 0)));
}

#[test]
fn pool_swap_a_excessive_amount_is_noop() {
    let mut pool = LiquidityPool::default();
    pool.add_liquidity(Dec::new(100, 0), Dec::new(200, 0));
    let received = pool.swap_a(Dec::new(100, 0));
    assert!(received.eq_val(&Dec::new(0, 0)));
    let received = pool.swap_a(Dec::new(101, 0));
    assert!(received.eq_val(&Dec::new(0, 0)));
    let (a, b) = pool.reserves();
    assert!(a.eq_val(&Dec::new(100, 0)));
    assert!(b.eq_val(&Dec::new(200, 0)));
}

#[test]
fn rounding_keeps_two_decimal_places() {
    // Reserves of any internal precision round to exactly two places, half
    // away from zero.
    let x = Dec::new(123456, 5);  // 1.23456
    assert!(x.round2().eq_val(&Dec::new(123, 2)));
    let midpoint = Dec::new(1235, 3);  // 1.235 rounds up, away from zero
    assert!(midpoint.round2().eq_val(&Dec::new(124, 2)));
    let negative = Dec::new(-1235, 3);  // -1.235 rounds away from zero
    assert!(negative.round2().eq_val(&Dec::new(-124, 2)));
    let coarse = Dec::new(7, 0);  // already within two places: unchanged
    assert!(coarse.round2().eq_val(&Dec::new(7, 0)));
}

#[test]
fn pool_reserves_rounded_through_a_swap() {
    // A swap that leaves a long fraction still reads back rounded to two
    // places through the rounded view of the reserves.
    let mut pool = LiquidityPool::default();
    pool.add_liquidity(Dec::new(3, 0), Dec::new(7, 0));
    // price_a(1) = 7 / (3 - 1) = 3.5; cost = 3.5; reserves become (2, 10.5).
    let received = pool.swap_a(Dec::new(1, 0));
    assert!(received.eq_val(&Dec::new(35, 1)));
    let (a, b) = pool.reserves();
    assert!(a.round2().eq_val(&Dec::new(2, 0)));
    assert!(b.round2().eq_val(&Dec::new(105, 1)));
}
