use vstd::arithmetic::div_mod::{lemma_fundamental_div_mod, lemma_mod_pos_bound};
use vstd::prelude::*;

use crate::error::ErrorCode;
use crate::pool::{fits_u64, Pool};

verus! {

/// Amount of asset B paid out for `amount_in` of asset A, with no fee:
/// `floor(reserve_b * amount_in / (reserve_a + amount_in))`.
pub open spec fn swap_output(reserve_a: int, reserve_b: int, amount_in: int) -> int {
    reserve_b * amount_in / (reserve_a + amount_in)
}

/// The pool after a swap of `amount_in` of asset A was taken.
pub open spec fn pool_after_swap(pool: Pool, amount_in: int) -> Pool {
    let out = swap_output(pool.token_a_amount as int, pool.token_b_amount as int, amount_in);
    pool.with_balances(
        pool.token_a_amount + amount_in,
        pool.token_b_amount - out,
        pool.total_liquidity as int,
    )
}

/// The output of a swap never exceeds the reserve of asset B, and stays below
/// it when that reserve is positive.
pub proof fn lemma_swap_output_bounds(reserve_a: int, reserve_b: int, amount_in: int)
    requires
        reserve_a > 0,
        reserve_b >= 0,
        amount_in >= 0,
    ensures
        0 <= swap_output(reserve_a, reserve_b, amount_in) <= reserve_b,
        reserve_b > 0 ==> swap_output(reserve_a, reserve_b, amount_in) < reserve_b,
        amount_in == 0 ==> swap_output(reserve_a, reserve_b, amount_in) == 0,
{
    let d = reserve_a + amount_in;
    let x = reserve_b * amount_in;
    let q = x / d;
    lemma_fundamental_div_mod(x, d);
    lemma_mod_pos_bound(x, d);
    assert(0 <= q <= reserve_b && (reserve_b > 0 ==> q < reserve_b) && (amount_in == 0 ==> q == 0))
        by (nonlinear_arith)
        requires
            reserve_a > 0,
            reserve_b >= 0,
            amount_in >= 0,
            d == reserve_a + amount_in,
            x == reserve_b * amount_in,
            x == d * q + x % d,
            0 <= x % d < d,
    ;
}

/// A swap never lowers the product of the reserves: the output is rounded
/// down and no fee is taken, so the pool can only gain.
pub proof fn lemma_swap_keeps_product(reserve_a: int, reserve_b: int, amount_in: int)
    requires
        reserve_a > 0,
        reserve_b >= 0,
        amount_in >= 0,
    ensures
        (reserve_a + amount_in) * (reserve_b - swap_output(reserve_a, reserve_b, amount_in))
            >= reserve_a * reserve_b,
{
    let d = reserve_a + amount_in;
    let x = reserve_b * amount_in;
    let q = x / d;
    lemma_fundamental_div_mod(x, d);
    lemma_mod_pos_bound(x, d);
    assert(d * (reserve_b - q) >= reserve_a * reserve_b) by (nonlinear_arith)
        requires
            d == reserve_a + amount_in,
            x == reserve_b * amount_in,
            x == d * q + x % d,
            0 <= x % d,
    ;
}

/// Reserves `(a, b)` after swapping each of `amounts` in turn, starting from
/// `(reserve_a, reserve_b)`.
pub open spec fn reserves_after_swaps(reserve_a: int, reserve_b: int, amounts: Seq<u64>) -> (int, int)
    decreases amounts.len(),
{
    if amounts.len() == 0 {
        (reserve_a, reserve_b)
    } else {
        let amount_in = amounts[0] as int;
        reserves_after_swaps(
            reserve_a + amount_in,
            reserve_b - swap_output(reserve_a, reserve_b, amount_in),
            amounts.drop_first(),
        )
    }
}

/// Over any run of swaps the product of the reserves never decreases, the
/// reserve of asset A stays positive and the reserve of asset B never goes
/// negative.
pub proof fn lemma_swaps_keep_product(reserve_a: int, reserve_b: int, amounts: Seq<u64>)
    requires
        reserve_a > 0,
        reserve_b >= 0,
    ensures
        ({
            let (a, b) = reserves_after_swaps(reserve_a, reserve_b, amounts);
            a >= reserve_a && b >= 0 && a * b >= reserve_a * reserve_b
        }),
    decreases amounts.len(),
{
    if amounts.len() > 0 {
        let amount_in = amounts[0] as int;
        let next_a = reserve_a + amount_in;
        let next_b = reserve_b - swap_output(reserve_a, reserve_b, amount_in);
        lemma_swap_output_bounds(reserve_a, reserve_b, amount_in);
        lemma_swap_keeps_product(reserve_a, reserve_b, amount_in);
        lemma_swaps_keep_product(next_a, next_b, amounts.drop_first());
    }
}

/// A swap on an initialized pool leaves it initialized, with its share supply
/// unchanged and its reserve of asset B reduced by no more than it held.
pub proof fn lemma_swap_keeps_pool_live(pool: Pool, amount_in: u64)
    requires
        pool.is_live(),
        fits_u64(pool.token_a_amount + amount_in),
    ensures
        pool_after_swap(pool, amount_in as int).is_live(),
        pool_after_swap(pool, amount_in as int).total_liquidity == pool.total_liquidity,
        swap_output(pool.token_a_amount as int, pool.token_b_amount as int, amount_in as int)
            <= pool.token_b_amount,
{
    lemma_swap_output_bounds(pool.token_a_amount as int, pool.token_b_amount as int, amount_in as int);
}

/// Output of swapping `amount_in` of asset A into `pool`, computed in 128 bits.
pub fn swap_amount_out(pool: &Pool, amount_in: u64) -> (r: u64)
    requires
        pool.token_a_amount > 0,
    ensures
        r == swap_output(pool.token_a_amount as int, pool.token_b_amount as int, amount_in as int),
        r <= pool.token_b_amount,
{
    let reserve_a = pool.token_a_amount as u128;
    let reserve_b = pool.token_b_amount as u128;
    let amount = amount_in as u128;
    assert(reserve_b * amount <= u64::MAX * u64::MAX) by (nonlinear_arith)
        requires
            reserve_b <= u64::MAX,
            amount <= u64::MAX,
    ;
    let out = (reserve_b * amount) / (reserve_a + amount);
    proof {
        lemma_swap_output_bounds(reserve_a as int, reserve_b as int, amount as int);
    }
    out as u64
}

/// Swaps `amount_in` of asset A for asset B and returns the amount of B paid
/// out. Fails with an overflow, leaving the pool as it was, when the new
/// reserve of asset A does not fit in 64 bits.
pub fn swap_tokens(pool: &mut Pool, amount_in: u64) -> (r: Result<u64, ErrorCode>)
    requires
        old(pool).token_a_amount > 0,
    ensures
        r.is_ok() <==> fits_u64(old(pool).token_a_amount + amount_in),
        match r {
            Ok(out) => {
                &&& out == swap_output(
                    old(pool).token_a_amount as int,
                    old(pool).token_b_amount as int,
                    amount_in as int,
                )
                &&& *final(pool) == pool_after_swap(*old(pool), amount_in as int)
            },
            Err(e) => e == ErrorCode::ArithmeticOverflow && *final(pool) == *old(pool),
        },
{
    let out = swap_amount_out(pool, amount_in);
    let reserve_a = match pool.token_a_amount.checked_add(amount_in) {
        Some(sum) => sum,
        None => return Err(ErrorCode::ArithmeticOverflow),
    };
    pool.token_a_amount = reserve_a;
    pool.token_b_amount = pool.token_b_amount - out;
    Ok(out)
}

} // verus!
