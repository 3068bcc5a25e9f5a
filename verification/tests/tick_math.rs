use clad_core::math::tick_math::{
    mul_shift_96, sqrt_price_from_tick_index, tick_index_from_sqrt_price,
};
use clad_core::math::tick_price::{
    MAX_SQRT_PRICE_X64, MAX_TICK_INDEX, MIN_SQRT_PRICE_X64, MIN_TICK_INDEX,
};
use clad_core::math::tick_tables::{falling_factor_at, rising_factor_at};

#[test]
fn tick_bounds_have_the_bound_prices() {
    assert_eq!(MAX_TICK_INDEX, 443636);
    assert_eq!(MIN_TICK_INDEX, -443636);
    assert_eq!(sqrt_price_from_tick_index(MAX_TICK_INDEX), MAX_SQRT_PRICE_X64);
    assert_eq!(sqrt_price_from_tick_index(MIN_TICK_INDEX), MIN_SQRT_PRICE_X64);
    assert_eq!(MAX_SQRT_PRICE_X64, 79226673515401279992447579055);
    assert_eq!(MIN_SQRT_PRICE_X64, 4295048016);
}

#[test]
fn tick_zero_has_price_one() {
    assert_eq!(sqrt_price_from_tick_index(0), 1u128 << 64);
}

#[test]
fn ticks_have_their_fixed_point_prices() {
    assert_eq!(sqrt_price_from_tick_index(1), 18447666387855959850);
    assert_eq!(sqrt_price_from_tick_index(-1), 18445821805675392311);
    assert_eq!(sqrt_price_from_tick_index(2), 18448588748116922571);
    assert_eq!(sqrt_price_from_tick_index(64), 18505865242158250041);
    assert_eq!(sqrt_price_from_tick_index(-64), 18387811781193591352);
    assert_eq!(sqrt_price_from_tick_index(100), 18539204128674405812);
    assert_eq!(sqrt_price_from_tick_index(-100), 18354745142194483561);
    assert_eq!(sqrt_price_from_tick_index(12345), 34195943348800206620);
    assert_eq!(sqrt_price_from_tick_index(-54321), 1220149845509316392);
    assert_eq!(sqrt_price_from_tick_index(443635), 79222712478800779441888593664);
    assert_eq!(sqrt_price_from_tick_index(-443635), 4295262763);
}

#[test]
fn price_of_a_tick_converts_back_to_the_tick() {
    let ticks = [
        MIN_TICK_INDEX,
        MIN_TICK_INDEX + 1,
        -262144,
        -65536,
        -1024,
        -64,
        -2,
        -1,
        0,
        1,
        2,
        63,
        64,
        65,
        1024,
        65535,
        65536,
        262143,
        262144,
        MAX_TICK_INDEX - 1,
        MAX_TICK_INDEX,
    ];
    for tick in ticks {
        let price = sqrt_price_from_tick_index(tick);
        assert_eq!(tick_index_from_sqrt_price(&price), tick);
    }
}

#[test]
fn price_between_two_ticks_belongs_to_the_lower_tick() {
    for tick in [-443636, -70000, -64, -1, 0, 1, 64, 70000, 443635] {
        let here = sqrt_price_from_tick_index(tick);
        let next = sqrt_price_from_tick_index(tick + 1);
        assert!(here < next);
        assert_eq!(tick_index_from_sqrt_price(&(next - 1)), tick);
        assert_eq!(tick_index_from_sqrt_price(&(here + 1)), tick);
        assert_eq!(tick_index_from_sqrt_price(&next), tick + 1);
        if tick > MIN_TICK_INDEX {
            assert_eq!(tick_index_from_sqrt_price(&(here - 1)), tick - 1);
        }
    }
}

#[test]
fn tick_of_price_at_the_bounds() {
    assert_eq!(tick_index_from_sqrt_price(&MIN_SQRT_PRICE_X64), MIN_TICK_INDEX);
    assert_eq!(tick_index_from_sqrt_price(&(MIN_SQRT_PRICE_X64 + 1)), MIN_TICK_INDEX);
    assert_eq!(tick_index_from_sqrt_price(&MAX_SQRT_PRICE_X64), MAX_TICK_INDEX);
    assert_eq!(tick_index_from_sqrt_price(&(MAX_SQRT_PRICE_X64 - 1)), MAX_TICK_INDEX - 1);
    assert_eq!(tick_index_from_sqrt_price(&(1u128 << 64)), 0);
    assert_eq!(tick_index_from_sqrt_price(&((1u128 << 64) - 1)), -1);
}

#[test]
fn prices_rise_with_the_tick() {
    let mut previous = sqrt_price_from_tick_index(-2000);
    let mut tick = -1999;
    while tick <= 2000 {
        let price = sqrt_price_from_tick_index(tick);
        assert!(price > previous);
        previous = price;
        tick += 1;
    }
    let mut previous = sqrt_price_from_tick_index(MAX_TICK_INDEX - 500);
    let mut tick = MAX_TICK_INDEX - 499;
    while tick <= MAX_TICK_INDEX {
        let price = sqrt_price_from_tick_index(tick);
        assert!(price > previous);
        previous = price;
        tick += 1;
    }
    let mut previous = sqrt_price_from_tick_index(MIN_TICK_INDEX);
    let mut tick = MIN_TICK_INDEX + 1;
    while tick <= MIN_TICK_INDEX + 500 {
        let price = sqrt_price_from_tick_index(tick);
        assert!(price > previous);
        previous = price;
        tick += 1;
    }
}

#[test]
fn tick_of_price_rises_with_the_price() {
    let prices: [u128; 7] = [
        MIN_SQRT_PRICE_X64,
        1u128 << 40,
        1u128 << 63,
        1u128 << 64,
        1u128 << 65,
        1u128 << 90,
        MAX_SQRT_PRICE_X64,
    ];
    let mut previous = tick_index_from_sqrt_price(&prices[0]);
    for price in &prices[1..] {
        let tick = tick_index_from_sqrt_price(price);
        assert!(tick >= previous);
        previous = tick;
    }
    assert_eq!(tick_index_from_sqrt_price(&(1u128 << 65)), 13863);
    assert_eq!(tick_index_from_sqrt_price(&(1u128 << 63)), -13864);
}

#[test]
fn factor_tables_hold_powers_of_the_tick_base() {
    assert_eq!(rising_factor_at(0), 79232123823359799118286999567);
    assert_eq!(rising_factor_at(1), 79236085330515764027303304731);
    assert_eq!(rising_factor_at(18), 38992368544603139932233054999993551);
    assert_eq!(falling_factor_at(0), 18445821805675392311);
    assert_eq!(falling_factor_at(1), 18444899583751176498);
    assert_eq!(falling_factor_at(18), 37481735321082);
    let one: u128 = 1u128 << 96;
    let mut i = 0;
    while i + 1 < 19 {
        let square = mul_shift_96(rising_factor_at(i), rising_factor_at(i));
        let next = rising_factor_at(i + 1);
        assert!(next >= square && next - square <= next / one + 2);
        i += 1;
    }
}

#[test]
fn mul_shift_96_drops_the_low_96_bits_of_the_product() {
    let one: u128 = 1u128 << 96;
    assert_eq!(mul_shift_96(0, 0), 0);
    assert_eq!(mul_shift_96(one, one), one);
    assert_eq!(mul_shift_96(one, 12345), 12345);
    assert_eq!(mul_shift_96(3, one - 1), 2);
    assert_eq!(mul_shift_96(u128::MAX, one), u128::MAX);
    assert_eq!(mul_shift_96(u128::MAX, 1), (1u128 << 32) - 1);
    assert_eq!(
        mul_shift_96(79232123823359799118286999567, 79236085330515764027303304731),
        79240047035742135098198828266
    );
    assert_eq!(
        mul_shift_96(0xFFFF_FFFF_FFFF_FFFF_FFFF_FFFF, 0xFFFF_FFFF_FFFF_FFFF_FFFF_FFFF),
        0xFFFF_FFFF_FFFF_FFFF_FFFF_FFFE
    );
}
