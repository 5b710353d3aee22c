use vstd::prelude::*;

use crate::error::ErrorCode;

verus! {

/// `r` is the floor of the square root of `n`.
pub open spec fn is_floor_sqrt(n: int, r: int) -> bool {
    0 <= r && r * r <= n && n < (r + 1) * (r + 1)
}

/// Floor of the square root of `value`, by binary search over `[0, value]`.
pub fn integer_sqrt(value: u64) -> (r: u64)
    ensures
        is_floor_sqrt(value as int, r as int),
{
    if value == 0 || value == 1 {
        assert(value * value == value && value < (value + 1) * (value + 1)) by (nonlinear_arith)
            requires
                value == 0 || value == 1,
        ;
        return value;
    }
    assert(value < (value + 1) * (value + 1)) by (nonlinear_arith);
    let mut low: u64 = 0;
    let mut high: u64 = value;
    let mut result: u64 = 0;
    while low <= high
        invariant
            2 <= value,
            high <= value,
            (result as int) * (result as int) <= value,
            (low == 0 && result == 0) || result + 1 == low,
            value < (high + 1) * (high + 1),
        decreases high - low + 1,
    {
        let mid: u64 = low + (high - low) / 2;
        assert((mid as int) * (mid as int) <= 0xffff_ffff_ffff_ffff_ffff_ffff_ffff_ffff) by (nonlinear_arith)
            requires
                mid <= 0xffff_ffff_ffff_ffffu64,
        ;
        let square: u128 = (mid as u128) * (mid as u128);
        if square == value as u128 {
            assert(value < (mid + 1) * (mid + 1)) by (nonlinear_arith)
                requires
                    mid * mid == value,
            ;
            return mid;
        } else if square < value as u128 {
            assert(mid < 0xffff_ffff_ffff_ffffu64) by (nonlinear_arith)
                requires
                    mid * mid < value,
                    value <= 0xffff_ffff_ffff_ffffu64,
            ;
            low = mid + 1;
            result = mid;
        } else {
            assert(mid >= 1) by (nonlinear_arith)
                requires
                    mid * mid > value,
                    value >= 2,
            ;
            high = mid - 1;
        }
    }
    assert(value < (result + 1) * (result + 1)) by (nonlinear_arith)
        requires
            high + 1 <= result + 1,
            value < (high + 1) * (high + 1),
    ;
    result
}

/// The initial liquidity of a pool: the floor of the square root of `value`.
/// It never fails; the `Result` lets it sit among the other fallible steps.
pub fn calculate_sqrt(value: u64) -> (r: Result<u64, ErrorCode>)
    ensures
        r.is_ok(),
        is_floor_sqrt(value as int, r.unwrap() as int),
{
    let sqrt = integer_sqrt(value);
    Ok(sqrt)
}

} // verus!
