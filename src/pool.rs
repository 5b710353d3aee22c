use vstd::prelude::*;

verus! {

/// The record of one trading pair: its two reserves and the supply of
/// liquidity shares that it has minted.
#[derive(Clone, Copy, Debug)]
pub struct Pool {
    /// Tells apart several pools of the same two assets.
    pub id: u64,
    /// Address of asset A.
    pub token_a_mint: [u8; 32],
    /// Address of asset B.
    pub token_b_mint: [u8; 32],
    /// Address of the liquidity-share asset of this pool.
    pub liquidity_mint: [u8; 32],
    /// Reserve of asset A held by the pool.
    pub token_a_amount: u64,
    /// Reserve of asset B held by the pool.
    pub token_b_amount: u64,
    /// Outstanding liquidity shares.
    pub total_liquidity: u64,
    /// Derivation parameter that lets the pool sign its own transfers.
    pub bump: u8,
}

impl Pool {
    /// An initialized pool: both reserves and the share supply are positive.
    pub open spec fn is_live(&self) -> bool {
        self.token_a_amount > 0 && self.token_b_amount > 0 && self.total_liquidity > 0
    }

    /// The same pool with its reserves and share supply replaced.
    pub open spec fn with_balances(self, reserve_a: int, reserve_b: int, total: int) -> Pool {
        Pool {
            token_a_amount: reserve_a as u64,
            token_b_amount: reserve_b as u64,
            total_liquidity: total as u64,
            ..self
        }
    }
}

/// `x` is representable as a `u64`.
pub open spec fn fits_u64(x: int) -> bool {
    0 <= x <= u64::MAX
}

} // verus!
