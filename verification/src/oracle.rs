use vstd::prelude::*;
use anchor_lang::prelude::Clock;
use anchor_lang::solana_program::sysvar::Sysvar;
use pyth_sdk_solana::{Price, PriceFeed, PriceIdentifier};
use crate::errors::LendingError;

verus! {

/// Largest age, in seconds, at which a published price is still used.
pub const MAX_PRICE_AGE: u64 = 60;

/// The latest price a feed has published, as a fixed-point number
/// `price * 10^expo` with confidence interval `conf`, and when it was published.
#[derive(Clone, Copy, Debug, PartialEq, Eq)]
pub struct FeedPrice {
    pub price: i64,
    pub conf: u64,
    pub expo: i32,
    pub publish_time: i64,
}

/// One price feed as read by the caller: its latest price, or nothing when
/// the feed could not be read.
#[derive(Clone, Copy, Debug, PartialEq, Eq)]
pub struct PriceSource {
    pub latest: Option<FeedPrice>,
}

/// Which feed a quote came from.
#[derive(Clone, Copy, Debug, PartialEq, Eq, Structural)]
pub enum PriceOrigin {
    Primary,
    Fallback,
}

/// A price resolved for one operation.
#[derive(Clone, Copy, Debug, PartialEq, Eq, Structural)]
pub struct PriceQuote {
    pub value: u64,
    pub source: PriceOrigin,
    pub timestamp: i64,
}

/// The price feeds an oracle query reads.
#[derive(Clone, Copy, Debug, PartialEq, Eq)]
pub struct GetPrice {
    pub price_feed: PriceSource,
    pub switchboard_feed: PriceSource,
}

/// Distance in seconds between two points in time.
pub open spec fn time_gap(publish_time: i64, now: i64) -> int {
    if publish_time >= now {
        publish_time - now
    } else {
        now - publish_time
    }
}

/// A published price as the unsigned number the engine computes with: the
/// same 64 bits read without a sign.
pub open spec fn price_value(price: i64) -> u64 {
    if price >= 0 {
        price as u64
    } else {
        (price + 0x1_0000_0000_0000_0000) as u64
    }
}

impl FeedPrice {
    /// Whether this price was published within `max_age` seconds of `now`,
    /// before or after it.
    pub open spec fn is_fresh(self, max_age: u64, now: i64) -> bool {
        time_gap(self.publish_time, now) <= max_age
    }
}

impl PriceSource {
    /// The price this source offers at `now`: its latest one if it is fresh.
    pub open spec fn fresh_price(self, max_age: u64, now: i64) -> Option<FeedPrice> {
        match self.latest {
            Some(latest) => if latest.is_fresh(max_age, now) {
                Some(latest)
            } else {
                None
            },
            None => None,
        }
    }

    /// Returns the latest price of this source if it was published within
    /// `max_age` seconds of `now`.
    pub fn price_no_older_than(&self, max_age: u64, now: i64) -> (found: Option<FeedPrice>)
        ensures
            found == self.fresh_price(max_age, now),
    {
        match self.latest {
            None => None,
            Some(latest) => {
                let gap: i128 = latest.publish_time as i128 - now as i128;
                if -(i64::MAX as i128) <= gap && gap <= i64::MAX as i128 {
                    feed_price_no_older_than(&latest, now, max_age)
                } else {
                    // The two times lie 2^63 seconds or more apart, further
                    // than signed 64-bit arithmetic can tell.
                    let distance: i128 = if gap < 0 { -gap } else { gap };
                    if distance <= max_age as i128 { Some(latest) } else { None }
                }
            },
        }
    }
}

/// Calls `PriceFeed::get_price_no_older_than` of the Pyth SDK on a feed whose
/// current price is `latest`. The SDK takes the absolute difference of the
/// publish time and `now` in 64-bit signed arithmetic and returns the price
/// when that difference is at most `max_age`, and nothing otherwise. The
/// precondition keeps the difference and its absolute value in range.
#[verifier::external_body]
fn feed_price_no_older_than(latest: &FeedPrice, now: i64, max_age: u64) -> (found: Option<FeedPrice>)
    requires
        -i64::MAX <= latest.publish_time - now <= i64::MAX,
    ensures
        found == if latest.is_fresh(max_age, now) { Some(*latest) } else { None::<FeedPrice> },
{
    let price = Price {
        price: latest.price,
        conf: latest.conf,
        expo: latest.expo,
        publish_time: latest.publish_time,
    };
    let feed = PriceFeed::new(PriceIdentifier::default(), price, price);
    match feed.get_price_no_older_than(now, max_age) {
        Some(p) => Some(FeedPrice { price: p.price, conf: p.conf, expo: p.expo, publish_time: p.publish_time }),
        None => None,
    }
}

/// Reads the cluster clock with `Clock::get` and returns its Unix timestamp,
/// or nothing when the clock is not available. Nothing is promised about the
/// reading.
#[verifier::external_body]
pub(crate) fn unix_timestamp_now() -> Option<i64> {
    match Clock::get() {
        Ok(clock) => Some(clock.unix_timestamp),
        Err(_) => None,
    }
}

/// The quote resolved at clock reading `now`: the primary feed's price if it
/// is fresh, else the fallback feed's price if that is fresh. There is no
/// quote without a clock reading, with a reading before the epoch, or when
/// neither feed has a fresh price.
pub open spec fn quote_at(primary: PriceSource, fallback: PriceSource, now: Option<i64>) -> Result<
    PriceQuote,
    LendingError,
> {
    match now {
        Some(t) if t >= 0 => match primary.fresh_price(MAX_PRICE_AGE, t) {
            Some(p) => Ok(
                PriceQuote { value: price_value(p.price), source: PriceOrigin::Primary, timestamp: p.publish_time },
            ),
            None => match fallback.fresh_price(MAX_PRICE_AGE, t) {
                Some(p) => Ok(
                    PriceQuote {
                        value: price_value(p.price),
                        source: PriceOrigin::Fallback,
                        timestamp: p.publish_time,
                    },
                ),
                None => Err(LendingError::InvalidOracle),
            },
        },
        _ => Err(LendingError::InvalidOracle),
    }
}

/// The price resolved at clock reading `now`.
pub open spec fn price_at(primary: PriceSource, fallback: PriceSource, now: Option<i64>) -> Result<
    u64,
    LendingError,
> {
    match quote_at(primary, fallback, now) {
        Ok(quote) => Ok(quote.value),
        Err(e) => Err(e),
    }
}

/// Reads a published price as an unsigned number.
fn unsigned_price(price: i64) -> (value: u64)
    ensures
        value == price_value(price),
{
    if price >= 0 {
        price as u64
    } else {
        u64::MAX - ((-(price + 1)) as u64)
    }
}

/// Resolves a quote from the two feeds at the clock reading `now`.
pub fn get_quote_at(primary: &PriceSource, fallback: &PriceSource, now: Option<i64>) -> (quote: Result<
    PriceQuote,
    LendingError,
>)
    ensures
        quote == quote_at(*primary, *fallback, now),
{
    let t = match now {
        Some(t) => t,
        None => { return Err(LendingError::InvalidOracle); },
    };
    if t < 0 {
        return Err(LendingError::InvalidOracle);
    }
    match primary.price_no_older_than(MAX_PRICE_AGE, t) {
        Some(p) => Ok(
            PriceQuote { value: unsigned_price(p.price), source: PriceOrigin::Primary, timestamp: p.publish_time },
        ),
        None => match fallback.price_no_older_than(MAX_PRICE_AGE, t) {
            Some(p) => Ok(
                PriceQuote {
                    value: unsigned_price(p.price),
                    source: PriceOrigin::Fallback,
                    timestamp: p.publish_time,
                },
            ),
            None => Err(LendingError::InvalidOracle),
        },
    }
}

/// Resolves the current price from the two feeds at the clock reading `now`.
pub fn get_price_at(primary: &PriceSource, fallback: &PriceSource, now: Option<i64>) -> (price: Result<
    u64,
    LendingError,
>)
    ensures
        price == price_at(*primary, *fallback, now),
{
    match get_quote_at(primary, fallback, now) {
        Ok(quote) => Ok(quote.value),
        Err(e) => Err(e),
    }
}

/// Resolves the current price from the two feeds, reading the cluster clock.
/// The result is the price resolved at whatever the clock gave.
pub fn get_price(primary: &PriceSource, fallback: &PriceSource) -> (price: Result<u64, LendingError>)
    ensures
        exists|now: Option<i64>| price == #[trigger] price_at(*primary, *fallback, now),
{
    let now = unix_timestamp_now();
    get_price_at(primary, fallback, now)
}

/// Resolves the current price from the feeds of an oracle query.
pub fn get_price_instruction(ctx: &GetPrice) -> (price: Result<u64, LendingError>)
    ensures
        exists|now: Option<i64>| price == #[trigger] price_at(ctx.price_feed, ctx.switchboard_feed, now),
{
    get_price(&ctx.price_feed, &ctx.switchboard_feed)
}

} // verus!
