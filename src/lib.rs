//! Accounting core of a two-asset constant-product market maker: the integer
//! square root that seeds a pool, proportional provisioning of liquidity, and
//! fee-free swaps of asset A for asset B, all in checked integer arithmetic.

pub mod error;
pub mod liquidity;
pub mod pool;
pub mod sqrt;
pub mod swap;
