use vstd::prelude::*;

verus! {

/// Why a pool operation was rejected.
#[derive(Clone, Copy, Debug, PartialEq, Eq, Structural)]
pub enum ErrorCode {
    /// An intermediate product or an updated balance does not fit in 64 bits.
    ArithmeticOverflow,
}

} // verus!
