use vstd::prelude::*;
use crate::errors::ErrorCode;
use crate::math::constants::Q64_RESOLUTION;

verus! {

/// The liquidity figure that results from applying a signed delta, or the
/// reason why no 128-bit figure exists: the exact sum, when it fits.
pub open spec fn add_liquidity_delta_spec(liquidity: u128, delta: i128) -> Result<u128, ErrorCode> {
    if liquidity + delta > u128::MAX {
        Err(ErrorCode::LiquidityOverflow)
    } else if liquidity + delta < 0 {
        Err(ErrorCode::LiquidityUnderflow)
    } else {
        Ok((liquidity + delta) as u128)
    }
}

/// Applies a signed delta to a liquidity figure without ever wrapping.
///
/// This is the only primitive through which liquidity figures change.
pub fn add_liquidity_delta(liquidity: u128, delta: i128) -> (result: Result<u128, ErrorCode>)
    ensures
        result == add_liquidity_delta_spec(liquidity, delta),
        result is Ok <==> 0 <= liquidity + delta <= u128::MAX,
        result is Ok ==> result->Ok_0 == liquidity + delta,
        result == Err::<u128, ErrorCode>(ErrorCode::LiquidityOverflow) <==> liquidity + delta > u128::MAX,
        result == Err::<u128, ErrorCode>(ErrorCode::LiquidityUnderflow) <==> liquidity + delta < 0,
{
    if delta == 0 {
        return Ok(liquidity);
    }
    if delta > 0 {
        match liquidity.checked_add(delta as u128) {
            Some(sum) => Ok(sum),
            None => Err(ErrorCode::LiquidityOverflow),
        }
    } else {
        match liquidity.checked_sub(magnitude(delta)) {
            Some(rest) => Ok(rest),
            None => Err(ErrorCode::LiquidityUnderflow),
        }
    }
}

/// The absolute value of a negative delta, which for the least `i128` does
/// not fit the signed type.
fn magnitude(delta: i128) -> (m: u128)
    requires
        delta < 0,
    ensures
        m == -delta,
{
    if delta == i128::MIN {
        0x8000_0000_0000_0000_0000_0000_0000_0000u128
    } else {
        (-delta) as u128
    }
}

/// The fee accrued per unit of liquidity, in Q64.64, by an interest payment:
/// the payment shifted into Q64.64 and divided by the liquidity it is spread
/// over.
#[verifier::inline]
pub open spec fn interest_fee_per_liquidity_spec(interest_amount: u64, liquidity_available: u128) -> int {
    (interest_amount as int * 0x1_0000_0000_0000_0000) / (interest_divisor_spec(liquidity_available) as int)
}

/// The liquidity an interest payment is spread over: the available liquidity,
/// or `ZERO_LIQUIDITY_DIVISOR` where there is none.
#[verifier::inline]
pub open spec fn interest_divisor_spec(liquidity_available: u128) -> u128 {
    if liquidity_available > 0 {
        liquidity_available
    } else {
        ZERO_LIQUIDITY_DIVISOR
    }
}

/// Divisor used in place of an empty pool's liquidity when interest accrues.
///
/// A pool that has never seen a swap has no available liquidity, and dividing
/// by it is undefined. Interest that arrives in that state is booked as if one
/// unit of liquidity existed, so the whole payment, at full Q64.64 scale, goes
/// into the accumulator. This is a deliberate approximation: it overstates the
/// per-unit fee for whatever liquidity arrives next.
pub const ZERO_LIQUIDITY_DIVISOR: u128 = 1;

/// Computes the fee accrued per unit of liquidity by an interest payment.
pub fn interest_fee_per_liquidity(interest_amount: u64, liquidity_available: u128) -> (fee: u128)
    ensures
        fee == interest_fee_per_liquidity_spec(interest_amount, liquidity_available),
{
    let divisor: u128 = if liquidity_available > 0 {
        liquidity_available
    } else {
        ZERO_LIQUIDITY_DIVISOR
    };
    let amount: u128 = interest_amount as u128;
    let scaled: u128 = amount << Q64_RESOLUTION;
    assert(scaled == amount * 0x1_0000_0000_0000_0000) by (bit_vector)
        requires
            amount <= 0xFFFF_FFFF_FFFF_FFFF,
            scaled == amount << 64,
    ;
    scaled / divisor
}

} // verus!
