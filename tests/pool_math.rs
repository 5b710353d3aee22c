use amm::error::ErrorCode;
use amm::liquidity::{add_liquidity, initial_liquidity, initialize_pool, liquidity_to_mint};
use amm::pool::Pool;
use amm::sqrt::{calculate_sqrt, integer_sqrt};
use amm::swap::{swap_amount_out, swap_tokens};

fn pool(reserve_a: u64, reserve_b: u64, total_liquidity: u64) -> Pool {
    Pool {
        id: 7,
        token_a_mint: [1u8; 32],
        token_b_mint: [2u8; 32],
        liquidity_mint: [3u8; 32],
        token_a_amount: reserve_a,
        token_b_amount: reserve_b,
        total_liquidity,
        bump: 254,
    }
}

fn balances(p: &Pool) -> (u64, u64, u64) {
    (p.token_a_amount, p.token_b_amount, p.total_liquidity)
}

#[test]
fn sqrt_small_values() {
    assert_eq!(integer_sqrt(0), 0);
    assert_eq!(integer_sqrt(1), 1);
    assert_eq!(integer_sqrt(4), 2);
    assert_eq!(integer_sqrt(8), 2);
    assert_eq!(integer_sqrt(9), 3);
    assert_eq!(calculate_sqrt(40000), Ok(200));
}

#[test]
fn sqrt_brackets_its_input() {
    let samples: [u64; 9] = [2, 3, 15, 16, 17, 99, 1 << 32, (1 << 40) + 12345, u64::MAX - 1];
    for n in samples {
        let r = integer_sqrt(n) as u128;
        let n = n as u128;
        assert!(r * r <= n);
        assert!(n < (r + 1) * (r + 1));
    }
}

#[test]
fn sqrt_of_largest_value() {
    assert_eq!(integer_sqrt(u64::MAX), 4294967295);
    assert_eq!(integer_sqrt(4294967295u64 * 4294967295u64), 4294967295);
}

#[test]
fn initialize_sets_reserves_and_liquidity() {
    let p = initialize_pool(7, [1u8; 32], [2u8; 32], [3u8; 32], 254, 100, 400).unwrap();
    assert_eq!(balances(&p), (100, 400, 200));
    assert_eq!(p.id, 7);
    assert_eq!(p.token_a_mint, [1u8; 32]);
    assert_eq!(p.token_b_mint, [2u8; 32]);
    assert_eq!(p.liquidity_mint, [3u8; 32]);
    assert_eq!(p.bump, 254);
}

#[test]
fn initialize_overflow() {
    let big: u64 = 1 << 40;
    assert_eq!(initial_liquidity(big, big), Err(ErrorCode::ArithmeticOverflow));
    let r = initialize_pool(7, [1u8; 32], [2u8; 32], [3u8; 32], 254, big, big);
    assert!(matches!(r, Err(ErrorCode::ArithmeticOverflow)));
}

#[test]
fn initialize_with_zero_deposit() {
    let p = initialize_pool(7, [1u8; 32], [2u8; 32], [3u8; 32], 254, 0, 400).unwrap();
    assert_eq!(balances(&p), (0, 400, 0));
}

#[test]
fn provisioning_takes_smaller_share() {
    let mut p = pool(100, 400, 200);
    assert_eq!(liquidity_to_mint(&p, 50, 150), Ok(75));
    assert_eq!(add_liquidity(&mut p, 50, 150), Ok(75));
    assert_eq!(balances(&p), (150, 550, 275));
}

#[test]
fn provisioning_product_overflow_leaves_pool() {
    let mut p = pool(100, 400, 1 << 40);
    assert_eq!(add_liquidity(&mut p, 1 << 30, 1), Err(ErrorCode::ArithmeticOverflow));
    assert_eq!(balances(&p), (100, 400, 1 << 40));
}

#[test]
fn provisioning_reserve_overflow_leaves_pool() {
    let mut p = pool(u64::MAX - 10, 400, 1);
    assert_eq!(add_liquidity(&mut p, 11, 400), Err(ErrorCode::ArithmeticOverflow));
    assert_eq!(balances(&p), (u64::MAX - 10, 400, 1));
}

#[test]
fn provisioning_zero_deposit_mints_nothing() {
    let mut p = pool(100, 400, 200);
    assert_eq!(add_liquidity(&mut p, 0, 0), Ok(0));
    assert_eq!(balances(&p), (100, 400, 200));
}

#[test]
fn swap_scenario() {
    let mut p = pool(100, 400, 200);
    assert_eq!(swap_amount_out(&p, 50), 133);
    assert_eq!(swap_tokens(&mut p, 50), Ok(133));
    assert_eq!(balances(&p), (150, 267, 200));
}

#[test]
fn swap_of_nothing_is_a_no_op() {
    let mut p = pool(100, 400, 200);
    assert_eq!(swap_tokens(&mut p, 0), Ok(0));
    assert_eq!(balances(&p), (100, 400, 200));
}

#[test]
fn swap_overflow_leaves_pool() {
    let mut p = pool(u64::MAX, 400, 200);
    assert_eq!(swap_tokens(&mut p, 1), Err(ErrorCode::ArithmeticOverflow));
    assert_eq!(balances(&p), (u64::MAX, 400, 200));
}

#[test]
fn huge_swap_never_drains_pool() {
    let mut p = pool(1, u64::MAX, 200);
    let out = swap_tokens(&mut p, u64::MAX - 1).unwrap();
    assert!(out < u64::MAX);
    assert!(p.token_b_amount > 0);
}

#[test]
fn swaps_never_lower_reserve_product() {
    let mut p = pool(100, 400, 200);
    for amount in [50u64, 1, 7, 1000, 3, 999_999] {
        let before = p.token_a_amount as u128 * p.token_b_amount as u128;
        swap_tokens(&mut p, amount).unwrap();
        let after = p.token_a_amount as u128 * p.token_b_amount as u128;
        assert!(after >= before);
        assert!(p.token_b_amount > 0);
        assert_eq!(p.total_liquidity, 200);
    }
}

#[test]
fn operations_keep_liquidity_positive() {
    let mut p = initialize_pool(7, [1u8; 32], [2u8; 32], [3u8; 32], 254, 100, 400).unwrap();
    add_liquidity(&mut p, 1, 1).unwrap();
    assert!(p.total_liquidity >= 200);
    swap_tokens(&mut p, 500).unwrap();
    add_liquidity(&mut p, 0, 10).unwrap();
    assert!(p.total_liquidity >= 200);
    assert!(p.token_a_amount > 0 && p.token_b_amount > 0);
}
