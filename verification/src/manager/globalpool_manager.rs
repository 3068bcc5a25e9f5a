use vstd::prelude::*;
use crate::errors::ErrorCode;
use crate::math::liquidity_math::{add_liquidity_delta, add_liquidity_delta_spec};
use crate::state::globalpool::Globalpool;

verus! {

/// Tells whether the pool's current tick lies in the half-open range that
/// starts at `tick_lower_index` and ends before `tick_upper_index`.
pub open spec fn tick_range_is_active(
    globalpool: &Globalpool,
    tick_upper_index: i32,
    tick_lower_index: i32,
) -> bool {
    tick_lower_index <= globalpool.tick_current_index < tick_upper_index
}

/// The pool's available liquidity once a position over the given tick range
/// has changed by `liquidity_delta`: the delta applies where the range
/// contains the current tick, and nothing changes elsewhere.
pub open spec fn next_globalpool_liquidity_spec(
    globalpool: &Globalpool,
    tick_upper_index: i32,
    tick_lower_index: i32,
    liquidity_delta: i128,
) -> Result<u128, ErrorCode> {
    if tick_range_is_active(globalpool, tick_upper_index, tick_lower_index) {
        add_liquidity_delta_spec(globalpool.liquidity_available, liquidity_delta)
    } else {
        Ok(globalpool.liquidity_available)
    }
}

/// Calculates the pool's next available liquidity from where its current
/// tick stands relative to a position's range.
///
/// Only a range that straddles the current tick changes the liquidity that
/// is available now. The upper tick itself is outside the range.
pub fn next_globalpool_liquidity(
    globalpool: &Globalpool,
    tick_upper_index: i32,
    tick_lower_index: i32,
    liquidity_delta: i128,
) -> (result: Result<u128, ErrorCode>)
    ensures
        result == next_globalpool_liquidity_spec(
            globalpool,
            tick_upper_index,
            tick_lower_index,
            liquidity_delta,
        ),
        !tick_range_is_active(globalpool, tick_upper_index, tick_lower_index) ==> result == Ok::<
            u128,
            ErrorCode,
        >(globalpool.liquidity_available),
{
    if globalpool.tick_current_index < tick_upper_index && globalpool.tick_current_index
        >= tick_lower_index {
        add_liquidity_delta(globalpool.liquidity_available, liquidity_delta)
    } else {
        Ok(globalpool.liquidity_available)
    }
}

} // verus!
