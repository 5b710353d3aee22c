use vstd::arithmetic::div_mod::lemma_div_pos_is_pos;
use vstd::prelude::*;

use crate::error::ErrorCode;
use crate::pool::{fits_u64, Pool};
use crate::sqrt::{calculate_sqrt, is_floor_sqrt};

verus! {

/// Shares earned by depositing `amount` into a reserve of `reserve`, out of a
/// supply of `total`.
pub open spec fn share(amount: int, total: int, reserve: int) -> int {
    amount * total / reserve
}

/// Shares minted for a deposit of `(amount_a, amount_b)`: the smaller of the
/// two proportional shares.
pub open spec fn minted_liquidity(pool: Pool, amount_a: int, amount_b: int) -> int {
    let share_a = share(amount_a, pool.total_liquidity as int, pool.token_a_amount as int);
    let share_b = share(amount_b, pool.total_liquidity as int, pool.token_b_amount as int);
    if share_a <= share_b {
        share_a
    } else {
        share_b
    }
}

/// Both products behind the proportional shares fit in 64 bits.
pub open spec fn shares_fit(pool: Pool, amount_a: int, amount_b: int) -> bool {
    fits_u64(amount_a * pool.total_liquidity) && fits_u64(amount_b * pool.total_liquidity)
}

/// A deposit can be taken: the shares can be computed and the new reserves
/// and supply fit in 64 bits.
pub open spec fn deposit_fits(pool: Pool, amount_a: int, amount_b: int) -> bool {
    &&& shares_fit(pool, amount_a, amount_b)
    &&& fits_u64(pool.token_a_amount + amount_a)
    &&& fits_u64(pool.token_b_amount + amount_b)
    &&& fits_u64(pool.total_liquidity + minted_liquidity(pool, amount_a, amount_b))
}

/// The pool after a deposit of `(amount_a, amount_b)` was taken.
pub open spec fn pool_after_deposit(pool: Pool, amount_a: int, amount_b: int) -> Pool {
    pool.with_balances(
        pool.token_a_amount + amount_a,
        pool.token_b_amount + amount_b,
        pool.total_liquidity + minted_liquidity(pool, amount_a, amount_b),
    )
}

/// A deposit never lowers the reserves or the share supply, so it leaves an
/// initialized pool initialized.
pub proof fn lemma_deposit_keeps_pool_live(pool: Pool, amount_a: u64, amount_b: u64)
    requires
        pool.token_a_amount > 0,
        pool.token_b_amount > 0,
        deposit_fits(pool, amount_a as int, amount_b as int),
    ensures
        ({
            let after = pool_after_deposit(pool, amount_a as int, amount_b as int);
            &&& after.token_a_amount >= pool.token_a_amount
            &&& after.token_b_amount >= pool.token_b_amount
            &&& after.total_liquidity >= pool.total_liquidity
            &&& pool.is_live() ==> after.is_live()
        }),
{
    let total = pool.total_liquidity as int;
    lemma_div_pos_is_pos(amount_a * total, pool.token_a_amount as int);
    lemma_div_pos_is_pos(amount_b * total, pool.token_b_amount as int);
}

/// Liquidity seeded by a first deposit: the floor of the square root of
/// `amount_a * amount_b`, or an overflow when that product exceeds 64 bits.
pub fn initial_liquidity(amount_a: u64, amount_b: u64) -> (r: Result<u64, ErrorCode>)
    ensures
        r.is_ok() <==> fits_u64(amount_a * amount_b),
        match r {
            Ok(liquidity) => is_floor_sqrt(amount_a * amount_b, liquidity as int),
            Err(e) => e == ErrorCode::ArithmeticOverflow,
        },
{
    match amount_a.checked_mul(amount_b) {
        Some(product) => calculate_sqrt(product),
        None => Err(ErrorCode::ArithmeticOverflow),
    }
}

/// Creates the record of a new pool seeded with `(amount_a, amount_b)`.
/// The liquidity minted to the depositor is the new pool's `total_liquidity`.
pub fn initialize_pool(
    id: u64,
    token_a_mint: [u8; 32],
    token_b_mint: [u8; 32],
    liquidity_mint: [u8; 32],
    bump: u8,
    amount_a: u64,
    amount_b: u64,
) -> (r: Result<Pool, ErrorCode>)
    ensures
        r.is_ok() <==> fits_u64(amount_a * amount_b),
        match r {
            Ok(pool) => {
                &&& pool.id == id
                &&& pool.token_a_mint == token_a_mint
                &&& pool.token_b_mint == token_b_mint
                &&& pool.liquidity_mint == liquidity_mint
                &&& pool.bump == bump
                &&& pool.token_a_amount == amount_a
                &&& pool.token_b_amount == amount_b
                &&& is_floor_sqrt(amount_a * amount_b, pool.total_liquidity as int)
            },
            Err(e) => e == ErrorCode::ArithmeticOverflow,
        },
{
    let total_liquidity = match initial_liquidity(amount_a, amount_b) {
        Ok(liquidity) => liquidity,
        Err(e) => return Err(e),
    };
    Ok(
        Pool {
            id,
            token_a_mint,
            token_b_mint,
            liquidity_mint,
            token_a_amount: amount_a,
            token_b_amount: amount_b,
            total_liquidity,
            bump,
        },
    )
}

/// Shares owed for depositing `(amount_a, amount_b)` into `pool`, or an
/// overflow when either proportional product exceeds 64 bits.
pub fn liquidity_to_mint(pool: &Pool, amount_a: u64, amount_b: u64) -> (r: Result<u64, ErrorCode>)
    requires
        pool.token_a_amount > 0,
        pool.token_b_amount > 0,
    ensures
        r.is_ok() <==> shares_fit(*pool, amount_a as int, amount_b as int),
        match r {
            Ok(minted) => minted == minted_liquidity(*pool, amount_a as int, amount_b as int),
            Err(e) => e == ErrorCode::ArithmeticOverflow,
        },
{
    let share_a = match amount_a.checked_mul(pool.total_liquidity) {
        Some(product) => product / pool.token_a_amount,
        None => return Err(ErrorCode::ArithmeticOverflow),
    };
    let share_b = match amount_b.checked_mul(pool.total_liquidity) {
        Some(product) => product / pool.token_b_amount,
        None => return Err(ErrorCode::ArithmeticOverflow),
    };
    if share_a <= share_b {
        Ok(share_a)
    } else {
        Ok(share_b)
    }
}

/// Takes a deposit of `(amount_a, amount_b)` into `pool` and returns the
/// shares minted for it. On an overflow the pool is left as it was.
pub fn add_liquidity(pool: &mut Pool, amount_a: u64, amount_b: u64) -> (r: Result<u64, ErrorCode>)
    requires
        old(pool).token_a_amount > 0,
        old(pool).token_b_amount > 0,
    ensures
        r.is_ok() <==> deposit_fits(*old(pool), amount_a as int, amount_b as int),
        match r {
            Ok(minted) => {
                &&& minted == minted_liquidity(*old(pool), amount_a as int, amount_b as int)
                &&& *final(pool) == pool_after_deposit(*old(pool), amount_a as int, amount_b as int)
            },
            Err(e) => e == ErrorCode::ArithmeticOverflow && *final(pool) == *old(pool),
        },
{
    let minted = match liquidity_to_mint(pool, amount_a, amount_b) {
        Ok(minted) => minted,
        Err(e) => return Err(e),
    };
    let reserve_a = match pool.token_a_amount.checked_add(amount_a) {
        Some(sum) => sum,
        None => return Err(ErrorCode::ArithmeticOverflow),
    };
    let reserve_b = match pool.token_b_amount.checked_add(amount_b) {
        Some(sum) => sum,
        None => return Err(ErrorCode::ArithmeticOverflow),
    };
    let total = match pool.total_liquidity.checked_add(minted) {
        Some(sum) => sum,
        None => return Err(ErrorCode::ArithmeticOverflow),
    };
    pool.token_a_amount = reserve_a;
    pool.token_b_amount = reserve_b;
    pool.total_liquidity = total;
    Ok(minted)
}

} // verus!
