use clad_core::errors::ErrorCode;
use clad_core::state::pyth::{can_compare_times, format_price, OraclePrice, Price, PriceFeed};

fn feed(price: i64, expo: i32, publish_time: i64) -> PriceFeed {
    PriceFeed { price: Price { price, conf: 10, expo, publish_time } }
}

#[test]
fn stale_seconds_is_five() {
    assert_eq!(PriceFeed::STALE_SECONDS, 5);
}

#[test]
fn format_price_keeps_value_and_exponent() {
    assert_eq!(
        format_price(Price { price: 12345, conf: 3, expo: -2, publish_time: 9 }),
        OraclePrice { price_with_expo: 12345, exponent: -2 }
    );
    assert_eq!(
        format_price(Price { price: 0, conf: 0, expo: 4, publish_time: 0 }),
        OraclePrice { price_with_expo: 0, exponent: 4 }
    );
    assert_eq!(
        format_price(Price { price: i64::MAX, conf: 0, expo: i32::MIN, publish_time: 0 }),
        OraclePrice { price_with_expo: i64::MAX as u64, exponent: i32::MIN }
    );
}

#[test]
fn read_price_accepts_prices_up_to_five_seconds_away() {
    let expected = Ok(OraclePrice { price_with_expo: 2_500_000, exponent: -5 });
    assert_eq!(feed(2_500_000, -5, 1000).read_price(1000), expected);
    assert_eq!(feed(2_500_000, -5, 1000).read_price(1005), expected);
    assert_eq!(feed(2_500_000, -5, 1000).read_price(995), expected);
    assert_eq!(feed(2_500_000, -5, -3).read_price(2), expected);
}

#[test]
fn read_price_rejects_prices_more_than_five_seconds_away() {
    assert_eq!(feed(2_500_000, -5, 1000).read_price(1006), Err(ErrorCode::PythError));
    assert_eq!(feed(2_500_000, -5, 1000).read_price(994), Err(ErrorCode::PythError));
    assert_eq!(feed(-1, -5, 1000).read_price(2000), Err(ErrorCode::PythError));
    assert_eq!(feed(1, 0, i64::MAX).read_price(0), Err(ErrorCode::PythError));
}

#[test]
fn checked_read_price_tells_when_the_price_cannot_be_read() {
    assert_eq!(
        feed(7, 1, 1000).checked_read_price(1001),
        Some(Ok(OraclePrice { price_with_expo: 7, exponent: 1 }))
    );
    assert_eq!(feed(7, 1, 1000).checked_read_price(1100), Some(Err(ErrorCode::PythError)));
    assert_eq!(feed(-7, 1, 1000).checked_read_price(1100), Some(Err(ErrorCode::PythError)));
    assert_eq!(feed(-7, 1, 1000).checked_read_price(1001), None);
    assert_eq!(feed(7, 1, i64::MAX).checked_read_price(-1), None);
    assert_eq!(feed(7, 1, i64::MIN).checked_read_price(0), None);
    assert_eq!(feed(7, 1, -1).checked_read_price(i64::MAX), None);
}

#[test]
fn times_are_comparable_when_their_distance_fits() {
    assert!(can_compare_times(0, 0));
    assert!(can_compare_times(i64::MAX, 0));
    assert!(can_compare_times(i64::MIN + 1, 0));
    assert!(can_compare_times(i64::MIN, -1));
    assert!(!can_compare_times(i64::MIN, 0));
    assert!(!can_compare_times(i64::MAX, -1));
    assert!(!can_compare_times(i64::MIN, 1));
    assert!(!can_compare_times(-2, i64::MAX));
}

#[test]
fn price_in_quote_is_what_the_oracle_library_computes() {
    let base = feed(30_000_00, -2, 1000);
    let quote = feed(15_00, -2, 1001);
    let expected = pyth_sdk::Price { price: 30_000_00, conf: 10, expo: -2, publish_time: 1000 }
        .get_price_in_quote(
            &pyth_sdk::Price { price: 15_00, conf: 10, expo: -2, publish_time: 1001 },
            0,
        )
        .unwrap();
    assert_eq!(expected.price, 2000);
    assert_eq!(expected.expo, 0);
    assert_eq!(
        base.read_price_in_quote(&quote, 1002),
        Ok(OraclePrice { price_with_expo: 2000, exponent: 0 })
    );
    assert_eq!(
        base.checked_read_price_in_quote(&quote, 1002),
        Some(Ok(OraclePrice { price_with_expo: 2000, exponent: 0 }))
    );
    assert_eq!(
        quote.read_price_in_quote(&base, 1002),
        Ok(OraclePrice { price_with_expo: 0, exponent: 0 })
    );
}

#[test]
fn price_in_quote_needs_both_prices_fresh() {
    let base = feed(30_000_00, -2, 1000);
    let quote = feed(15_00, -2, 1001);
    assert_eq!(base.read_price_in_quote(&quote, 1006), Err(ErrorCode::PythError));
    assert_eq!(base.read_price_in_quote(&quote, 995), Err(ErrorCode::PythError));
    let old_quote = feed(15_00, -2, 900);
    assert_eq!(base.read_price_in_quote(&old_quote, 1000), Err(ErrorCode::PythError));
    assert_eq!(
        base.checked_read_price_in_quote(&old_quote, 1000),
        Some(Err(ErrorCode::PythError))
    );
}

#[test]
fn checked_price_in_quote_tells_when_no_quoted_price_exists() {
    let base = feed(30_000_00, -2, 1000);
    let zero_quote = feed(0, -2, 1000);
    assert_eq!(base.checked_read_price_in_quote(&zero_quote, 1000), None);
    let negative = feed(-30_000_00, -2, 1000);
    let quote = feed(15_00, -2, 1000);
    assert_eq!(negative.checked_read_price_in_quote(&quote, 1000), None);
    assert_eq!(base.checked_read_price_in_quote(&feed(1, 0, i64::MIN), 1000), None);
    assert_eq!(
        base.checked_read_price_in_quote(&feed(1, 0, i64::MIN), 2000),
        Some(Err(ErrorCode::PythError))
    );
}
