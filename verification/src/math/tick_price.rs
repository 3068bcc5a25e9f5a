use vstd::prelude::*;
use crate::math::tick_tables::{
    falling_factor, falling_ones, lemma_falling_tables, lemma_rising_tables, rising_factor,
    rising_ones,
};

verus! {

/// Largest tick the pool supports.
pub const MAX_TICK_INDEX: i32 = 443636;

/// Smallest tick the pool supports.
pub const MIN_TICK_INDEX: i32 = -443636;

/// Square-root price, in Q64.64, of the largest supported tick.
pub const MAX_SQRT_PRICE_X64: u128 = 79226673515401279992447579055;

/// Square-root price, in Q64.64, of the smallest supported tick.
pub const MIN_SQRT_PRICE_X64: u128 = 4295048016;

/// The Q32.96 ratio of a tick at or above zero, built one binary digit at a
/// time from the lowest: `bits` holds the digits from `i` upwards, `ratio`
/// the product so far. A set digit multiplies by its factor and rounds down.
pub open spec fn rising_fold(bits: nat, i: int, ratio: nat) -> nat
    decreases 19 - i,
{
    if i >= 19 {
        ratio
    } else if bits % 2 == 1 {
        rising_fold(
            bits / 2,
            i + 1,
            ratio * rising_factor(i) / 0x1_0000_0000_0000_0000_0000_0000,
        )
    } else {
        rising_fold(bits / 2, i + 1, ratio)
    }
}

/// The Q64.64 ratio of a tick below zero, built from the digits of its
/// magnitude in the same way as `rising_fold`.
pub open spec fn falling_fold(bits: nat, i: int, ratio: nat) -> nat
    decreases 19 - i,
{
    if i >= 19 {
        ratio
    } else if bits % 2 == 1 {
        falling_fold(bits / 2, i + 1, ratio * falling_factor(i) / 0x1_0000_0000_0000_0000)
    } else {
        falling_fold(bits / 2, i + 1, ratio)
    }
}

/// The square-root price of a tick in Q64.64: `sqrt(1.0001)` raised to the
/// tick, as the fixed-point products of the factor tables give it.
pub open spec fn sqrt_price_from_tick_index_spec(tick: int) -> nat {
    if tick >= 0 {
        rising_fold(tick as nat, 0, 0x1_0000_0000_0000_0000_0000_0000) / 0x1_0000_0000
    } else {
        falling_fold((-tick) as nat, 0, 0x1_0000_0000_0000_0000)
    }
}

/// How many values the digits from `i` upwards can take.
pub open spec fn digit_span(i: int) -> nat
    decreases 19 - i,
{
    if i >= 19 {
        1
    } else {
        2 * digit_span(i + 1)
    }
}

/// Rounded-down scaling by a factor of at least one keeps every gap.
proof fn lemma_scale_up_keeps_gap(a: nat, b: nat, c: nat)
    requires
        a <= b,
        c >= 0x1_0000_0000_0000_0000_0000_0000,
    ensures
        b * c / 0x1_0000_0000_0000_0000_0000_0000 >= a * c / 0x1_0000_0000_0000_0000_0000_0000 + (b
            - a),
{
    assert(b * c == a * c + (b - a) * c) by (nonlinear_arith)
        requires
            a <= b,
    ;
    assert((b - a) * c >= (b - a) * 0x1_0000_0000_0000_0000_0000_0000) by (nonlinear_arith)
        requires
            a <= b,
            c >= 0x1_0000_0000_0000_0000_0000_0000,
    ;
}

/// A larger starting ratio leads to a final ratio larger by at least as much.
proof fn lemma_rising_fold_keeps_gap(bits: nat, i: int, a: nat, b: nat)
    requires
        0 <= i <= 19,
        a <= b,
    ensures
        rising_fold(bits, i, b) >= rising_fold(bits, i, a) + (b - a),
    decreases 19 - i,
{
    if i < 19 {
        if bits % 2 == 1 {
            lemma_rising_tables(i);
            lemma_scale_up_keeps_gap(a, b, rising_factor(i));
            lemma_rising_fold_keeps_gap(
                bits / 2,
                i + 1,
                a * rising_factor(i) / 0x1_0000_0000_0000_0000_0000_0000,
                b * rising_factor(i) / 0x1_0000_0000_0000_0000_0000_0000,
            );
        } else {
            lemma_rising_fold_keeps_gap(bits / 2, i + 1, a, b);
        }
    }
}

/// The final ratio is never below the starting one.
pub proof fn lemma_rising_fold_grows(bits: nat, i: int, ratio: nat)
    requires
        0 <= i <= 19,
    ensures
        rising_fold(bits, i, ratio) >= ratio,
    decreases 19 - i,
{
    if i < 19 {
        if bits % 2 == 1 {
            lemma_rising_tables(i);
            lemma_scale_up_keeps_gap(0, ratio, rising_factor(i));
            assert(0nat * rising_factor(i) == 0) by (nonlinear_arith);
            lemma_rising_fold_grows(
                bits / 2,
                i + 1,
                ratio * rising_factor(i) / 0x1_0000_0000_0000_0000_0000_0000,
            );
        } else {
            lemma_rising_fold_grows(bits / 2, i + 1, ratio);
        }
    }
}

/// Between a value whose digits below `i` are all set and its successor,
/// whose digits below `i` are all clear, the final ratio rises by more than
/// the 32 bits that a price drops.
proof fn lemma_rising_successor(bits: nat, i: int)
    requires
        0 <= i <= 19,
        bits + 1 < digit_span(i),
    ensures
        rising_fold(bits + 1, i, 0x1_0000_0000_0000_0000_0000_0000) >= rising_fold(
            bits,
            i,
            rising_ones(i),
        ) + 0x1_0000_0000,
    decreases 19 - i,
{
    if i < 19 {
        lemma_rising_tables(i);
        let one: nat = 0x1_0000_0000_0000_0000_0000_0000;
        assert(one * rising_factor(i) / 0x1_0000_0000_0000_0000_0000_0000 == rising_factor(i)) by {
            assert(one * rising_factor(i) == rising_factor(i) * 0x1_0000_0000_0000_0000_0000_0000)
                by (nonlinear_arith)
                requires
                    one == 0x1_0000_0000_0000_0000_0000_0000,
            ;
        }
        if bits % 2 == 0 {
            lemma_rising_fold_keeps_gap(bits / 2, i + 1, rising_ones(i), rising_factor(i));
        } else {
            lemma_rising_successor(bits / 2, i + 1);
        }
    }
}

/// Rounded-down scaling by a positive factor below one keeps a relative gap
/// of one part in `2^15`, up to one more unit of slack.
proof fn lemma_scale_down_keeps_ratio(a: nat, b: nat, c: nat, slack: nat)
    requires
        0 < c < 0x1_0000_0000_0000_0000,
        b * 32768 <= (a + slack) * 32767,
    ensures
        (b * c / 0x1_0000_0000_0000_0000) * 32768 <= (a * c / 0x1_0000_0000_0000_0000 + slack + 1)
            * 32767,
{
    let d: int = 0x1_0000_0000_0000_0000;
    let bq: int = (b * c / 0x1_0000_0000_0000_0000) as int;
    let aq: int = (a * c / 0x1_0000_0000_0000_0000) as int;
    assert(bq * d <= b * c);
    assert((aq + 1) * d > a * c);
    assert(b * c * 32768 <= (a * c + slack * c) * 32767) by (nonlinear_arith)
        requires
            b * 32768 <= (a + slack) * 32767,
            0 < c,
    ;
    assert(slack * c <= slack * d) by (nonlinear_arith)
        requires
            c < d,
            d == 0x1_0000_0000_0000_0000,
    ;
}

/// A ratio that starts one part in `2^15` below another, up to some slack,
/// ends that way too, with one more unit of slack for each digit passed.
proof fn lemma_falling_fold_keeps_ratio(bits: nat, i: int, a: nat, b: nat, slack: nat)
    requires
        0 <= i <= 19,
        b * 32768 <= (a + slack) * 32767,
    ensures
        falling_fold(bits, i, b) * 32768 <= (falling_fold(bits, i, a) + slack + (19 - i)) * 32767,
    decreases 19 - i,
{
    if i < 19 {
        if bits % 2 == 1 {
            lemma_falling_tables(i);
            lemma_scale_down_keeps_ratio(a, b, falling_factor(i), slack);
            lemma_falling_fold_keeps_ratio(
                bits / 2,
                i + 1,
                a * falling_factor(i) / 0x1_0000_0000_0000_0000,
                b * falling_factor(i) / 0x1_0000_0000_0000_0000,
                slack + 1,
            );
        } else {
            lemma_falling_fold_keeps_ratio(bits / 2, i + 1, a, b, slack);
        }
    }
}

/// Rounded-down scaling keeps the order of two ratios.
proof fn lemma_scale_keeps_order(a: nat, b: nat, c: nat)
    requires
        a <= b,
    ensures
        a * c / 0x1_0000_0000_0000_0000 <= b * c / 0x1_0000_0000_0000_0000,
{
    assert(a * c <= b * c) by (nonlinear_arith)
        requires
            a <= b,
    ;
}

/// A ratio that starts at or above the entry for all lower digits set ends at
/// or above the last entry of the falling table.
proof fn lemma_falling_fold_floor(bits: nat, i: int, ratio: nat)
    requires
        0 <= i <= 19,
        ratio >= falling_ones(i),
    ensures
        falling_fold(bits, i, ratio) >= 76162531,
    decreases 19 - i,
{
    if i < 19 {
        lemma_falling_tables(i);
        if bits % 2 == 1 {
            lemma_scale_keeps_order(falling_ones(i), ratio, falling_factor(i));
            lemma_falling_fold_floor(
                bits / 2,
                i + 1,
                ratio * falling_factor(i) / 0x1_0000_0000_0000_0000,
            );
        } else {
            lemma_falling_fold_floor(bits / 2, i + 1, ratio);
        }
    }
}

/// Between a value whose digits below `i` are all set and its successor,
/// whose digits below `i` are all clear, the final ratio falls by one part in
/// `2^15`, up to a slack of at most 19.
proof fn lemma_falling_successor(bits: nat, i: int)
    requires
        0 <= i <= 19,
        bits + 1 < digit_span(i),
    ensures
        falling_fold(bits + 1, i, 0x1_0000_0000_0000_0000) * 32768 <= (falling_fold(
            bits,
            i,
            falling_ones(i),
        ) + 19) * 32767,
    decreases 19 - i,
{
    if i < 19 {
        lemma_falling_tables(i);
        let one: nat = 0x1_0000_0000_0000_0000;
        assert(one * falling_factor(i) / 0x1_0000_0000_0000_0000 == falling_factor(i)) by {
            assert(one * falling_factor(i) == falling_factor(i) * 0x1_0000_0000_0000_0000)
                by (nonlinear_arith)
                requires
                    one == 0x1_0000_0000_0000_0000,
            ;
        }
        if bits % 2 == 0 {
            lemma_falling_fold_keeps_ratio(
                bits / 2,
                i + 1,
                falling_ones(i),
                falling_factor(i),
                0,
            );
        } else {
            lemma_falling_successor(bits / 2, i + 1);
        }
    }
}

/// Nineteen binary digits take 524288 values.
proof fn lemma_digit_span()
    ensures
        digit_span(0) == 524288,
{
    reveal_with_fuel(digit_span, 20);
}

/// With no digit set, no factor is applied.
proof fn lemma_folds_of_zero(i: int, ratio: nat)
    requires
        0 <= i <= 19,
    ensures
        rising_fold(0, i, ratio) == ratio,
        falling_fold(0, i, ratio) == ratio,
    decreases 19 - i,
{
    if i < 19 {
        lemma_folds_of_zero(i + 1, ratio);
    }
}

/// The Q32.96 ratio of ticks at or above zero rises with the tick.
pub proof fn lemma_rising_ratio_increasing(low: nat, high: nat)
    requires
        low <= high < 524288,
    ensures
        rising_fold(low, 0, 0x1_0000_0000_0000_0000_0000_0000) <= rising_fold(
            high,
            0,
            0x1_0000_0000_0000_0000_0000_0000,
        ),
    decreases high - low,
{
    if low < high {
        lemma_digit_span();
        lemma_rising_successor((high - 1) as nat, 0);
        lemma_rising_ratio_increasing(low, (high - 1) as nat);
    }
}

/// The price of the largest supported tick is the largest supported price.
pub proof fn lemma_sqrt_price_at_max_tick()
    ensures
        rising_fold(443636, 0, 0x1_0000_0000_0000_0000_0000_0000)
            == 340275971719517849884101479037289023427,
        sqrt_price_from_tick_index_spec(MAX_TICK_INDEX as int) == MAX_SQRT_PRICE_X64,
{
    // One line for each digit of the tick, from the highest down to the lowest.
    assert(rising_fold(0, 19, 340275971719517849884101479037289023427) == 340275971719517849884101479037289023427);
    assert(rising_fold(1, 18, 691402984567465602855604295835822) == 340275971719517849884101479037289023427);
    assert(rising_fold(3, 17, 985555834813563612221638545219) == 340275971719517849884101479037289023427);
    assert(rising_fold(6, 16, 985555834813563612221638545219) == 340275971719517849884101479037289023427);
    assert(rising_fold(13, 15, 191499978405809145203445059952) == 340275971719517849884101479037289023427);
    assert(rising_fold(27, 14, 84413610726049114366347414816) == 340275971719517849884101479037289023427);
    assert(rising_fold(54, 13, 84413610726049114366347414816) == 340275971719517849884101479037289023427);
    assert(rising_fold(108, 12, 84413610726049114366347414816) == 340275971719517849884101479037289023427);
    assert(rising_fold(216, 11, 84413610726049114366347414816) == 340275971719517849884101479037289023427);
    assert(rising_fold(433, 10, 80200617388689977366536547152) == 340275971719517849884101479037289023427);
    assert(rising_fold(866, 9, 80200617388689977366536547152) == 340275971719517849884101479037289023427);
    assert(rising_fold(1732, 8, 80200617388689977366536547152) == 340275971719517849884101479037289023427);
    assert(rising_fold(3465, 7, 79688997946402660867703038957) == 340275971719517849884101479037289023427);
    assert(rising_fold(6931, 6, 79434413434441317004961661155) == 340275971719517849884101479037289023427);
    assert(rising_fold(13863, 5, 79307426338960776842885539843) == 340275971719517849884101479037289023427);
    assert(rising_fold(27727, 4, 79244008939048815603706035061) == 340275971719517849884101479037289023427);
    assert(rising_fold(55454, 3, 79244008939048815603706035061) == 340275971719517849884101479037289023427);
    assert(rising_fold(110909, 2, 79228162514264337593543950336) == 340275971719517849884101479037289023427);
    assert(rising_fold(221818, 1, 79228162514264337593543950336) == 340275971719517849884101479037289023427);
    assert(rising_fold(443636, 0, 79228162514264337593543950336) == 340275971719517849884101479037289023427);
}

/// The price of the smallest supported tick is the smallest supported price.
pub proof fn lemma_sqrt_price_at_min_tick()
    ensures
        sqrt_price_from_tick_index_spec(MIN_TICK_INDEX as int) == MIN_SQRT_PRICE_X64,
{
    // One line for each digit of the tick's magnitude, from the highest down to the lowest.
    assert(falling_fold(0, 19, 4295048016) == 4295048016);
    assert(falling_fold(1, 18, 2113820261052536) == 4295048016);
    assert(falling_fold(3, 17, 1482921196045045371) == 4295048016);
    assert(falling_fold(6, 16, 1482921196045045371) == 4295048016);
    assert(falling_fold(13, 15, 7631863196526440527) == 4295048016);
    assert(falling_fold(27, 14, 17313578044587773368) == 4295048016);
    assert(falling_fold(54, 13, 17313578044587773368) == 4295048016);
    assert(falling_fold(108, 12, 17313578044587773368) == 4295048016);
    assert(falling_fold(216, 11, 17313578044587773368) == 4295048016);
    assert(falling_fold(433, 10, 18223072152272561885) == 4295048016);
    assert(falling_fold(866, 9, 18223072152272561885) == 4295048016);
    assert(falling_fold(1732, 8, 18223072152272561885) == 4295048016);
    assert(falling_fold(3465, 7, 18340067951587015306) == 4295048016);
    assert(falling_fold(6931, 6, 18398847226801858501) == 4295048016);
    assert(falling_fold(13863, 5, 18428307471288117479) == 4295048016);
    assert(falling_fold(27727, 4, 18443055278223354162) == 4295048016);
    assert(falling_fold(55454, 3, 18443055278223354162) == 4295048016);
    assert(falling_fold(110909, 2, 18446744073709551616) == 4295048016);
    assert(falling_fold(221818, 1, 18446744073709551616) == 4295048016);
    assert(falling_fold(443636, 0, 18446744073709551616) == 4295048016);
}

/// From one supported tick to the next, the price strictly rises.
pub proof fn lemma_sqrt_price_step(tick: int)
    requires
        MIN_TICK_INDEX <= tick < MAX_TICK_INDEX,
    ensures
        sqrt_price_from_tick_index_spec(tick) < sqrt_price_from_tick_index_spec(tick + 1),
{
    lemma_digit_span();
    if tick >= 0 {
        lemma_rising_successor(tick as nat, 0);
    } else if tick == -1 {
        lemma_folds_of_zero(1, falling_factor(0));
        lemma_folds_of_zero(1, 0x1_0000_0000_0000_0000_0000_0000);
    } else {
        let magnitude: nat = (-tick - 1) as nat;
        lemma_falling_successor(magnitude, 0);
        lemma_falling_fold_floor(magnitude, 0, 0x1_0000_0000_0000_0000);
    }
}

/// Over the supported ticks, a larger tick has a strictly larger price.
pub proof fn lemma_sqrt_price_strictly_increasing(low: int, high: int)
    requires
        MIN_TICK_INDEX <= low < high <= MAX_TICK_INDEX,
    ensures
        sqrt_price_from_tick_index_spec(low) < sqrt_price_from_tick_index_spec(high),
    decreases high - low,
{
    lemma_sqrt_price_step(high - 1);
    if low < high - 1 {
        lemma_sqrt_price_strictly_increasing(low, high - 1);
    }
}

/// Every supported tick has a price within the supported range.
pub proof fn lemma_sqrt_price_in_bounds(tick: int)
    requires
        MIN_TICK_INDEX <= tick <= MAX_TICK_INDEX,
    ensures
        MIN_SQRT_PRICE_X64 <= sqrt_price_from_tick_index_spec(tick) <= MAX_SQRT_PRICE_X64,
{
    lemma_sqrt_price_at_max_tick();
    lemma_sqrt_price_at_min_tick();
    if tick < MAX_TICK_INDEX {
        lemma_sqrt_price_strictly_increasing(tick, MAX_TICK_INDEX as int);
    }
    if MIN_TICK_INDEX < tick {
        lemma_sqrt_price_strictly_increasing(MIN_TICK_INDEX as int, tick);
    }
}

} // verus!
