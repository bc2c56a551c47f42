use amm_core::cpmm::ConstantProductMarketMaker;
use amm_core::dec::Dec;
use amm_core::liquidity_pool::LiquidityPool;

#[test]
fn cpmm_test_add_liquidity() {
    // Create a new liquidity pool with default values.
    let mut pool = ConstantProductMarketMaker::default();

    // Add 100 units of token A and 200 units of token B to the pool.
    pool.add_liquidity(Dec::new(100, 0), Dec::new(200, 0));

    // The reserves of token A and token B equal the added amounts.
    let (a, b) = pool.reserves();
    assert!(a.eq_val(&Dec::new(100, 0)));
    assert!(b.eq_val(&Dec::new(200, 0)));
}

#[test]
fn cpmm_test_remove_liquidity() {
    let mut pool = ConstantProductMarketMaker::default();
    pool.add_liquidity(Dec::new(100, 0), Dec::new(200, 0));

    // Remove 10 units of token A and 20 units of token B from the pool.
    pool.remove_liquidity(Dec::new(10, 0), Dec::new(20, 0));

    let (a, b) = pool.reserves();
    assert!(a.eq_val(&Dec::new(90, 0)));
    assert!(b.eq_val(&Dec::new(180, 0)));
}

#[test]
fn cpmm_test_price_a() {
    let mut pool = ConstantProductMarketMaker::default();
    pool.add_liquidity(Dec::new(100, 0), Dec::new(200, 0));

    // The price of 10 units of token A in terms of token B.
    let price = pool.price_a(Dec::new(10, 0)).round2();
    assert!(price.eq_val(&Dec::new(222, 2)));
}

#[test]
fn cpmm_test_swap_a() {
    let mut pool = ConstantProductMarketMaker::default();
    pool.add_liquidity(Dec::new(100, 0), Dec::new(200, 0));

    // Swap 10 units of token B for token A.
    let cost_a = pool.swap_b(Dec::new(10, 0)).round2();
    assert!(cost_a.eq_val(&Dec::new(526, 2)));

    let (a, b) = pool.reserves();
    assert!(a.round2().eq_val(&Dec::new(10526, 2)));
    assert!(b.round2().eq_val(&Dec::new(190, 0)));
}

#[test]
fn cpmm_test_price_b() {
    let mut pool = ConstantProductMarketMaker::default();
    pool.add_liquidity(Dec::new(100, 0), Dec::new(200, 0));

    // The price of 10 units of token B in terms of token A.
    let price = pool.price_b(Dec::new(10, 0)).round2();
    assert!(price.eq_val(&Dec::new(53, 2)));
}

#[test]
fn cpmm_test_swap_b() {
    let mut pool = ConstantProductMarketMaker::default();
    pool.add_liquidity(Dec::new(100, 0), Dec::new(200, 0));

    // Swap 10 units of token A for token B.
    let cost_b = pool.swap_a(Dec::new(10, 0)).round2();
    assert!(cost_b.eq_val(&Dec::new(2222, 2)));

    let (a, b) = pool.reserves();
    assert!(a.round2().eq_val(&Dec::new(90, 0)));
    assert!(b.round2().eq_val(&Dec::new(22222, 2)));
}

#[test]
fn cpmm_swap_a_excessive_amount_is_noop() {
    // An amount equal to the reserve would zero the denominator; one above it
    // would make it negative.  Both quote zero and leave the pool untouched.
    let mut pool = ConstantProductMarketMaker::default();
    pool.add_liquidity(Dec::new(100, 0), Dec::new(200, 0));

    let received = pool.swap_a(Dec::new(100, 0));
    assert!(received.eq_val(&Dec::new(0, 0)));
    let received = pool.swap_a(Dec::new(250, 0));
    assert!(received.eq_val(&Dec::new(0, 0)));

    let (a, b) = pool.reserves();
    assert!(a.eq_val(&Dec::new(100, 0)));
    assert!(b.eq_val(&Dec::new(200, 0)));
}

#[test]
fn cpmm_swap_b_excessive_amount_is_noop() {
    let mut pool = ConstantProductMarketMaker::default();
    pool.add_liquidity(Dec::new(100, 0), Dec::new(200, 0));

    let received = pool.swap_b(Dec::new(200, 0));
    assert!(received.eq_val(&Dec::new(0, 0)));
    let received = pool.swap_b(Dec::new(1000, 0));
    assert!(received.eq_val(&Dec::new(0, 0)));

    let (a, b) = pool.reserves();
    assert!(a.eq_val(&Dec::new(100, 0)));
    assert!(b.eq_val(&Dec::new(200, 0)));
}

#[test]
fn cpmm_empty_pool_quotes_zero() {
    // Degenerate input: an empty reserve prices everything at zero, so a swap
    // against it is a no-op that returns zero.
    let pool = ConstantProductMarketMaker::default();
    assert!(pool.price_a(Dec::new(5, 0)).eq_val(&Dec::new(0, 0)));
    assert!(pool.price_b(Dec::new(5, 0)).eq_val(&Dec::new(0, 0)));

    let mut pool = ConstantProductMarketMaker::default();
    let received = pool.swap_a(Dec::new(5, 0));
    assert!(received.eq_val(&Dec::new(0, 0)));
    let (a, b) = pool.reserves();
    assert!(a.eq_val(&Dec::new(0, 0)));
    assert!(b.eq_val(&Dec::new(0, 0)));
}

#[test]
fn cpmm_reserves_stay_nonnegative_over_a_sequence() {
    // Adds, swaps and removals in any order leave both reserves >= 0.
    let mut pool = ConstantProductMarketMaker::default();
    pool.add_liquidity(Dec::new(5, 0), Dec::new(5, 0));
    pool.swap_a(Dec::new(3, 0));
    pool.remove_liquidity(Dec::new(100, 0), Dec::new(100, 0));
    let (a, b) = pool.reserves();
    assert!(!a.is_negative());
    assert!(!b.is_negative());
    assert!(a.eq_val(&Dec::new(0, 0)));
    assert!(b.eq_val(&Dec::new(0, 0)));
}

#[test]
fn cpmm_remove_clamps_at_zero() {
    // Withdrawing more than a reserve holds floors that reserve at zero.
    let mut pool = ConstantProductMarketMaker::default();
    pool.add_liquidity(Dec::new(10, 0), Dec::new(20, 0));
    pool.remove_liquidity(Dec::new(15, 0), Dec::new(5, 0));
    let (a, b) = pool.reserves();
    assert!(a.eq_val(&Dec::new(0, 0)));
    assert!(b.eq_val(&Dec::new(15, 0)));
}
