use vstd::prelude::*;
use crate::errors::ErrorCode;

verus! {

/// A price as an oracle publishes it: `price` and its confidence interval
/// `conf`, both to be scaled by ten to the power `expo`, and the time of
/// publication in seconds since the epoch.
#[derive(Clone, Copy, Debug, PartialEq, Eq)]
pub struct Price {
    pub price: i64,
    pub conf: u64,
    pub expo: i32,
    pub publish_time: i64,
}

/// What is read of a price feed: the latest price it holds, however old.
#[derive(Clone, Copy, Debug, PartialEq, Eq)]
pub struct PriceFeed {
    pub price: Price,
}

/// A price ready for use by the pool: the value, to be scaled by ten to the
/// power `exponent`.
#[derive(Clone, Copy, Debug, PartialEq, Eq)]
pub struct OraclePrice {
    pub price_with_expo: u64,
    pub exponent: i32,
}

/// The price of `base` expressed in `quote`, scaled to `result_expo`, as the
/// oracle's library computes it. `None` where it cannot represent the result.
pub uninterp spec fn quoted_price(base: Price, quote: Price, result_expo: i32) -> Option<Price>;

/// Tells whether the distance between two times fits the signed 64-bit
/// arithmetic in which the oracle's library measures it.
pub open spec fn times_are_comparable(publish_time: i64, current_time: i64) -> bool {
    i64::MIN < publish_time - current_time <= i64::MAX
}

/// Tells whether a price published at `publish_time` is at most `age`
/// seconds away from `current_time`, in either direction.
pub open spec fn is_fresh(publish_time: i64, current_time: i64, age: u64) -> bool {
    -age <= publish_time - current_time <= age
}

/// Asks `pyth_sdk::PriceFeed::get_price_no_older_than` for the price of a
/// feed that holds `price`.
///
/// Trusted: the feed's price comes back as it went in where it was published
/// within `age` seconds of `current_time`, before or after, and nothing comes
/// back otherwise. Times whose distance overflows are left out.
#[verifier::external_body]
fn price_no_older_than(price: Price, current_time: i64, age: u64) -> (fresh: Option<Price>)
    requires
        times_are_comparable(price.publish_time, current_time),
    ensures
        fresh == if is_fresh(price.publish_time, current_time, age) {
            Some(price)
        } else {
            None
        },
{
    let held = pyth_sdk::Price { price: price.price, conf: price.conf, expo: price.expo, publish_time: price.publish_time };
    let feed = pyth_sdk::PriceFeed::new(pyth_sdk::Identifier::new([0u8; 32]), held, held);
    let fresh = feed.get_price_no_older_than(current_time, age);
    fresh.map(|p| Price { price: p.price, conf: p.conf, expo: p.expo, publish_time: p.publish_time })
}

/// Asks `pyth_sdk::Price::get_price_in_quote` for the price of `base` in
/// terms of `quote`.
///
/// Trusted: the result depends on the two prices and the exponent alone.
/// What it is in terms of them is not stated.
#[verifier::external_body]
fn price_in_quote(base: Price, quote: Price, result_expo: i32) -> (quoted: Option<Price>)
    ensures
        quoted == quoted_price(base, quote, result_expo),
{
    let b = pyth_sdk::Price { price: base.price, conf: base.conf, expo: base.expo, publish_time: base.publish_time };
    let q = pyth_sdk::Price { price: quote.price, conf: quote.conf, expo: quote.expo, publish_time: quote.publish_time };
    let quoted = b.get_price_in_quote(&q, result_expo);
    quoted.map(|p| Price { price: p.price, conf: p.conf, expo: p.expo, publish_time: p.publish_time })
}

/// The pool's form of a published price that is not negative.
pub open spec fn format_price_spec(price: Price) -> OraclePrice {
    OraclePrice { price_with_expo: price.price as u64, exponent: price.expo }
}

/// Puts a published price that is not negative into the pool's form.
pub fn format_price(price: Price) -> (formatted: OraclePrice)
    requires
        price.price >= 0,
    ensures
        formatted == format_price_spec(price),
        formatted.price_with_expo == price.price,
        formatted.exponent == price.expo,
{
    OraclePrice { price_with_expo: price.price as u64, exponent: price.expo }
}

impl PriceFeed {
    /// Age, in seconds, beyond which a price is not used.
    pub const STALE_SECONDS: u64 = 5;

    /// What `read_price` returns.
    pub open spec fn read_price_spec(&self, current_timestamp: i64) -> Result<OraclePrice, ErrorCode> {
        if is_fresh(self.price.publish_time, current_timestamp, PriceFeed::STALE_SECONDS) {
            Ok(format_price_spec(self.price))
        } else {
            Err(ErrorCode::PythError)
        }
    }

    /// Tells whether `read_price` may be called: the two times are
    /// comparable, and a fresh price is not negative.
    pub open spec fn price_is_readable(&self, current_timestamp: i64) -> bool {
        &&& times_are_comparable(self.price.publish_time, current_timestamp)
        &&& is_fresh(self.price.publish_time, current_timestamp, PriceFeed::STALE_SECONDS) ==> self.price.price >= 0
    }

    /// Reads the feed's price, which may be no older than `STALE_SECONDS`.
    pub fn read_price(&self, current_timestamp: i64) -> (result: Result<OraclePrice, ErrorCode>)
        requires
            self.price_is_readable(current_timestamp),
        ensures
            result == self.read_price_spec(current_timestamp),
    {
        match price_no_older_than(self.price, current_timestamp, PriceFeed::STALE_SECONDS) {
            Some(price) => Ok(format_price(price)),
            None => Err(ErrorCode::PythError),
        }
    }

    /// What `read_price_in_quote` returns, given the price that the oracle's
    /// library forms of a fresh price and a fresh quote.
    pub open spec fn read_price_in_quote_spec(
        &self,
        quote_price_feed: &PriceFeed,
        current_timestamp: i64,
    ) -> Result<OraclePrice, ErrorCode> {
        if is_fresh(self.price.publish_time, current_timestamp, PriceFeed::STALE_SECONDS) && is_fresh(
            quote_price_feed.price.publish_time,
            current_timestamp,
            PriceFeed::STALE_SECONDS,
        ) {
            Ok(format_price_spec(quoted_price(self.price, quote_price_feed.price, 0)->Some_0))
        } else {
            Err(ErrorCode::PythError)
        }
    }

    /// Tells whether `read_price_in_quote` may be called: the times are
    /// comparable and, where both prices are fresh, the oracle's library can
    /// form the quoted price, which is not negative.
    pub open spec fn price_in_quote_is_readable(
        &self,
        quote_price_feed: &PriceFeed,
        current_timestamp: i64,
    ) -> bool {
        &&& times_are_comparable(self.price.publish_time, current_timestamp)
        &&& is_fresh(self.price.publish_time, current_timestamp, PriceFeed::STALE_SECONDS) ==> {
            &&& times_are_comparable(quote_price_feed.price.publish_time, current_timestamp)
            &&& is_fresh(
                quote_price_feed.price.publish_time,
                current_timestamp,
                PriceFeed::STALE_SECONDS,
            ) ==> {
                &&& quoted_price(self.price, quote_price_feed.price, 0) matches Some(quoted)
                &&& quoted.price >= 0
            }
        }
    }

    /// Reads the feed's price in terms of the price of another feed. Neither
    /// may be older than `STALE_SECONDS`.
    pub fn read_price_in_quote(&self, quote_price_feed: &PriceFeed, current_timestamp: i64) -> (result:
        Result<OraclePrice, ErrorCode>)
        requires
            self.price_in_quote_is_readable(quote_price_feed, current_timestamp),
        ensures
            result == self.read_price_in_quote_spec(quote_price_feed, current_timestamp),
    {
        let price: Price = match price_no_older_than(
            self.price,
            current_timestamp,
            PriceFeed::STALE_SECONDS,
        ) {
            Some(price) => price,
            None => {
                return Err(ErrorCode::PythError);
            },
        };
        let quote: Price = match price_no_older_than(
            quote_price_feed.price,
            current_timestamp,
            PriceFeed::STALE_SECONDS,
        ) {
            Some(quote) => quote,
            None => {
                return Err(ErrorCode::PythError);
            },
        };
        let price_in_quote: Option<Price> = price_in_quote(price, quote, 0);
        Ok(format_price(price_in_quote.unwrap()))
    }

    /// Reads the feed's price in terms of the price of another feed where
    /// that can be done, and returns `None` where `read_price_in_quote` may
    /// not be called.
    pub fn checked_read_price_in_quote(
        &self,
        quote_price_feed: &PriceFeed,
        current_timestamp: i64,
    ) -> (result: Option<Result<OraclePrice, ErrorCode>>)
        ensures
            result is Some <==> self.price_in_quote_is_readable(quote_price_feed, current_timestamp),
            result is Some ==> result->Some_0 == self.read_price_in_quote_spec(
                quote_price_feed,
                current_timestamp,
            ),
    {
        if !can_compare_times(self.price.publish_time, current_timestamp) {
            return None;
        }
        if price_no_older_than(self.price, current_timestamp, PriceFeed::STALE_SECONDS).is_some() {
            if !can_compare_times(quote_price_feed.price.publish_time, current_timestamp) {
                return None;
            }
            if price_no_older_than(
                quote_price_feed.price,
                current_timestamp,
                PriceFeed::STALE_SECONDS,
            ).is_some() {
                match price_in_quote(self.price, quote_price_feed.price, 0) {
                    Some(quoted) => {
                        if quoted.price < 0 {
                            return None;
                        }
                    },
                    None => {
                        return None;
                    },
                }
            }
        }
        Some(self.read_price_in_quote(quote_price_feed, current_timestamp))
    }

    /// Reads the feed's price where that can be done, and returns `None`
    /// where `read_price` may not be called.
    pub fn checked_read_price(&self, current_timestamp: i64) -> (result: Option<
        Result<OraclePrice, ErrorCode>,
    >)
        ensures
            result is Some <==> self.price_is_readable(current_timestamp),
            result is Some ==> result->Some_0 == self.read_price_spec(current_timestamp),
    {
        if !can_compare_times(self.price.publish_time, current_timestamp) {
            return None;
        }
        if price_no_older_than(self.price, current_timestamp, PriceFeed::STALE_SECONDS).is_some()
            && self.price.price < 0 {
            return None;
        }
        Some(self.read_price(current_timestamp))
    }
}

/// Checks at run time that the distance between two times can be measured.
pub fn can_compare_times(publish_time: i64, current_time: i64) -> (comparable: bool)
    ensures
        comparable == times_are_comparable(publish_time, current_time),
{
    match publish_time.checked_sub(current_time) {
        Some(distance) => distance != i64::MIN,
        None => false,
    }
}

} // verus!
