use vstd::prelude::*;
use crate::math::tick_price::{
    falling_fold, lemma_rising_fold_grows,
    lemma_rising_ratio_increasing, lemma_sqrt_price_at_max_tick, lemma_sqrt_price_at_min_tick,
    lemma_sqrt_price_in_bounds, lemma_sqrt_price_strictly_increasing, rising_fold,
    sqrt_price_from_tick_index_spec, MAX_SQRT_PRICE_X64, MAX_TICK_INDEX, MIN_SQRT_PRICE_X64,
    MIN_TICK_INDEX,
};
use crate::math::tick_tables::{falling_factor_at, lemma_falling_tables, rising_factor_at};

verus! {

/// Tells whether `sqrt_price` lies in the price range of `tick`: at or above
/// the tick's own price and, unless the tick is the largest one, below the
/// price of the next tick.
pub open spec fn tick_contains_price(tick: int, sqrt_price: nat) -> bool {
    &&& MIN_TICK_INDEX <= tick <= MAX_TICK_INDEX
    &&& sqrt_price_from_tick_index_spec(tick) <= sqrt_price
    &&& tick < MAX_TICK_INDEX ==> sqrt_price < sqrt_price_from_tick_index_spec(tick + 1)
}

/// The tick whose price range contains `sqrt_price`. Over the supported
/// prices there is exactly one.
pub open spec fn tick_index_from_sqrt_price_spec(sqrt_price: nat) -> int {
    choose|tick: int| tick_contains_price(tick, sqrt_price)
}

/// The product of two 64-bit halves fits 128 bits.
proof fn lemma_half_product_fits(x: u128, y: u128)
    requires
        x < 0x1_0000_0000_0000_0000,
        y < 0x1_0000_0000_0000_0000,
    ensures
        x * y <= 0xFFFF_FFFF_FFFF_FFFE_0000_0000_0000_0001,
{
    assert(x * y <= 0xFFFF_FFFF_FFFF_FFFF * 0xFFFF_FFFF_FFFF_FFFF) by (nonlinear_arith)
        requires
            0 <= x <= 0xFFFF_FFFF_FFFF_FFFF,
            0 <= y <= 0xFFFF_FFFF_FFFF_FFFF,
    ;
}

/// A product of two-part numbers, written out part by part.
proof fn lemma_split_product(a_high: int, a_low: int, b_high: int, b_low: int, base: int)
    ensures
        (a_high * base + a_low) * (b_high * base + b_low) == (a_high * b_high) * (base * base) + (
        a_low * b_high + a_high * b_low) * base + a_low * b_low,
{
    let a_top: int = a_high * base;
    let b_top: int = b_high * base;
    assert((a_top + a_low) * (b_top + b_low) == a_top * b_top + a_top * b_low + a_low * b_top
        + a_low * b_low) by (nonlinear_arith);
    assert(a_top * b_top == (a_high * b_high) * (base * base)) by (nonlinear_arith)
        requires
            a_top == a_high * base,
            b_top == b_high * base,
    ;
    assert(a_top * b_low == (a_high * b_low) * base) by (nonlinear_arith)
        requires
            a_top == a_high * base,
    ;
    assert(a_low * b_top == (a_low * b_high) * base) by (nonlinear_arith)
        requires
            b_top == b_high * base,
    ;
    assert((a_low * b_high + a_high * b_low) * base == (a_low * b_high) * base + (a_high * b_low)
        * base) by (nonlinear_arith);
}

/// Multiplies two 128-bit values and drops the low 96 bits of the 256-bit
/// product.
pub fn mul_shift_96(a: u128, b: u128) -> (shifted: u128)
    requires
        a * b / 0x1_0000_0000_0000_0000_0000_0000 <= u128::MAX,
    ensures
        shifted == a * b / 0x1_0000_0000_0000_0000_0000_0000,
{
    let a_high: u128 = a / 0x1_0000_0000_0000_0000;
    let a_low: u128 = a % 0x1_0000_0000_0000_0000;
    let b_high: u128 = b / 0x1_0000_0000_0000_0000;
    let b_low: u128 = b % 0x1_0000_0000_0000_0000;
    proof {
        lemma_half_product_fits(a_low, b_low);
        lemma_half_product_fits(a_low, b_high);
        lemma_half_product_fits(a_high, b_low);
        lemma_half_product_fits(a_high, b_high);
    }
    let low_low: u128 = a_low * b_low;
    let low_high: u128 = a_low * b_high;
    let high_low: u128 = a_high * b_low;
    let high_high: u128 = a_high * b_high;
    let carry: u128 = low_low / 0x1_0000_0000_0000_0000;
    let rest: u128 = (low_high % 0x1_0000_0000 + high_low % 0x1_0000_0000 + carry % 0x1_0000_0000)
        / 0x1_0000_0000;
    proof {
        lemma_split_product(
            a_high as int,
            a_low as int,
            b_high as int,
            b_low as int,
            0x1_0000_0000_0000_0000,
        );
        assert(a == a_high * 0x1_0000_0000_0000_0000 + a_low);
        assert(b == b_high * 0x1_0000_0000_0000_0000 + b_low);
        assert(0x1_0000_0000_0000_0000int * 0x1_0000_0000_0000_0000int
            == 0x1_0000_0000_0000_0000_0000_0000_0000_0000);
        let middle: int = low_high + high_low + carry;
        assert(a * b == high_high * 0x1_0000_0000_0000_0000_0000_0000_0000_0000 + middle
            * 0x1_0000_0000_0000_0000 + low_low % 0x1_0000_0000_0000_0000);
        assert(a * b / 0x1_0000_0000_0000_0000_0000_0000 == high_high * 0x1_0000_0000 + middle
            / 0x1_0000_0000);
        assert(middle / 0x1_0000_0000 == low_high / 0x1_0000_0000 + high_low / 0x1_0000_0000
            + carry / 0x1_0000_0000 + rest);
    }
    high_high * 0x1_0000_0000 + low_high / 0x1_0000_0000 + high_low / 0x1_0000_0000 + carry
        / 0x1_0000_0000 + rest
}

/// Computes the Q64.64 square-root price of a tick at or above zero.
fn sqrt_price_at_rising_tick(tick: u32) -> (price: u128)
    requires
        tick <= MAX_TICK_INDEX,
    ensures
        price == sqrt_price_from_tick_index_spec(tick as int),
{
    let mut bits: u32 = tick;
    let mut ratio: u128 = 0x1_0000_0000_0000_0000_0000_0000;
    let mut i: usize = 0;
    proof {
        lemma_sqrt_price_at_max_tick();
        lemma_rising_ratio_increasing(tick as nat, 443636);
    }
    while i < 19
        invariant
            i <= 19,
            rising_fold(bits as nat, i as int, ratio as nat) == rising_fold(
                tick as nat,
                0,
                0x1_0000_0000_0000_0000_0000_0000,
            ),
            rising_fold(tick as nat, 0, 0x1_0000_0000_0000_0000_0000_0000) <= u128::MAX,
        decreases 19 - i,
    {
        if bits % 2 == 1 {
            let factor: u128 = rising_factor_at(i);
            proof {
                lemma_rising_fold_grows(
                    (bits / 2) as nat,
                    i + 1,
                    ratio as nat * factor as nat / 0x1_0000_0000_0000_0000_0000_0000,
                );
            }
            ratio = mul_shift_96(ratio, factor);
        }
        bits = bits / 2;
        i = i + 1;
    }
    ratio / 0x1_0000_0000
}

/// Computes the Q64.64 square-root price of a tick below zero from its
/// magnitude.
fn sqrt_price_at_falling_tick(magnitude: u32) -> (price: u128)
    requires
        0 < magnitude <= MAX_TICK_INDEX,
    ensures
        price == sqrt_price_from_tick_index_spec(-(magnitude as int)),
{
    let mut bits: u32 = magnitude;
    let mut ratio: u128 = 0x1_0000_0000_0000_0000;
    let mut i: usize = 0;
    while i < 19
        invariant
            i <= 19,
            ratio <= 0x1_0000_0000_0000_0000,
            falling_fold(bits as nat, i as int, ratio as nat) == falling_fold(
                magnitude as nat,
                0,
                0x1_0000_0000_0000_0000,
            ),
        decreases 19 - i,
    {
        if bits % 2 == 1 {
            let factor: u128 = falling_factor_at(i);
            proof {
                lemma_falling_tables(i as int);
                assert(ratio * factor <= 0x1_0000_0000_0000_0000 * 0xFFFF_FFFF_FFFF_FFFF)
                    by (nonlinear_arith)
                    requires
                        0 <= ratio <= 0x1_0000_0000_0000_0000,
                        0 <= factor <= 0xFFFF_FFFF_FFFF_FFFF,
                ;
            }
            ratio = ratio * factor / 0x1_0000_0000_0000_0000;
        }
        bits = bits / 2;
        i = i + 1;
    }
    ratio
}

/// Computes the square-root price of a supported tick in Q64.64.
pub fn sqrt_price_from_tick_index(tick: i32) -> (price: u128)
    requires
        MIN_TICK_INDEX <= tick <= MAX_TICK_INDEX,
    ensures
        price == sqrt_price_from_tick_index_spec(tick as int),
        MIN_SQRT_PRICE_X64 <= price <= MAX_SQRT_PRICE_X64,
{
    proof {
        lemma_sqrt_price_in_bounds(tick as int);
    }
    if tick >= 0 {
        sqrt_price_at_rising_tick(tick as u32)
    } else {
        sqrt_price_at_falling_tick((-tick) as u32)
    }
}

/// Finds the tick whose price range contains a supported square-root price.
pub fn tick_index_from_sqrt_price(sqrt_price: &u128) -> (tick: i32)
    requires
        MIN_SQRT_PRICE_X64 <= *sqrt_price <= MAX_SQRT_PRICE_X64,
    ensures
        tick_contains_price(tick as int, *sqrt_price as nat),
        tick == tick_index_from_sqrt_price_spec(*sqrt_price as nat),
{
    let tick: i32 = search_tick(*sqrt_price);
    proof {
        lemma_tick_of_price_is_unique(
            tick as int,
            tick_index_from_sqrt_price_spec(*sqrt_price as nat),
            *sqrt_price as nat,
        );
    }
    tick
}

/// Halves the span of candidate ticks until one tick is left whose price is
/// at or below `price` while the next tick's price is above it.
fn search_tick(price: u128) -> (tick: i32)
    requires
        MIN_SQRT_PRICE_X64 <= price <= MAX_SQRT_PRICE_X64,
    ensures
        tick_contains_price(tick as int, price as nat),
{
    if sqrt_price_from_tick_index(MAX_TICK_INDEX) <= price {
        return MAX_TICK_INDEX;
    }
    let mut low: i32 = MIN_TICK_INDEX;
    let mut high: i32 = MAX_TICK_INDEX;
    proof {
        lemma_sqrt_price_at_min_tick();
    }
    while high - low > 1
        invariant
            MIN_TICK_INDEX <= low < high <= MAX_TICK_INDEX,
            sqrt_price_from_tick_index_spec(low as int) <= price,
            price < sqrt_price_from_tick_index_spec(high as int),
        decreases high - low,
    {
        let middle: i32 = low + (high - low) / 2;
        if sqrt_price_from_tick_index(middle) <= price {
            low = middle;
        } else {
            high = middle;
        }
    }
    low
}

/// At most one tick's price range contains a given price.
pub proof fn lemma_tick_of_price_is_unique(first: int, second: int, sqrt_price: nat)
    requires
        tick_contains_price(first, sqrt_price),
        tick_contains_price(second, sqrt_price),
    ensures
        first == second,
{
    if first < second {
        if first + 1 < second {
            lemma_sqrt_price_strictly_increasing(first + 1, second);
        }
    } else if second < first {
        if second + 1 < first {
            lemma_sqrt_price_strictly_increasing(second + 1, first);
        }
    }
}

/// A tick's own price lies in that tick's range, so converting a tick to its
/// price and back gives the tick again.
pub proof fn lemma_tick_contains_own_price(tick: int)
    requires
        MIN_TICK_INDEX <= tick <= MAX_TICK_INDEX,
    ensures
        tick_contains_price(tick, sqrt_price_from_tick_index_spec(tick)),
{
    if tick < MAX_TICK_INDEX {
        lemma_sqrt_price_strictly_increasing(tick, tick + 1);
    }
}

/// A larger price never lies in the range of a smaller tick.
pub proof fn lemma_tick_of_price_is_monotonic(
    low_tick: int,
    low_price: nat,
    high_tick: int,
    high_price: nat,
)
    requires
        tick_contains_price(low_tick, low_price),
        tick_contains_price(high_tick, high_price),
        low_price <= high_price,
    ensures
        low_tick <= high_tick,
{
    if high_tick < low_tick {
        if high_tick + 1 < low_tick {
            lemma_sqrt_price_strictly_increasing(high_tick + 1, low_tick);
        }
    }
}

} // verus!
