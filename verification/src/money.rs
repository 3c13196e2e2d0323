//! Fixed-point money and the multipliers of the trading rules.
//!
//! An amount is a whole number of millionths ("micros") of a currency unit.
//! Amounts that come from the marketplace are 64 bits wide; amounts that the
//! engine derives from them are 128 bits wide, so that no multiplication here
//! can overflow. A product that is not a whole number of micros is rounded
//! down.

use vstd::prelude::*;
use vstd::arithmetic::div_mod::{lemma_div_is_ordered, lemma_div_multiples_vanish};
use vstd::arithmetic::div_mod::{lemma_fundamental_div_mod, lemma_mod_bound};

verus! {

/// Micros in one currency unit.
pub const MICROS_PER_UNIT: u64 = 1_000_000;

/// A listing that did not sell loses this many percent of its price.
pub const PRICE_REDUCTION_PERCENT: u16 = 10;

/// A listing that sold gains this many percent on its price.
pub const PRICE_INCREASE_PERCENT: u16 = 5;

/// New listings start at this many percent of the article's average price.
pub const HIGH_SELL_PERCENT: u16 = 1000;

/// Before the late game no price drops below this many percent of the
/// article's average price.
pub const LOW_SELL_PERCENT: u16 = 110;

/// No offer is bought above this many percent of the article's average price.
pub const BUY_PERCENT: u16 = 110;

/// Factor by which the price of an empty listing is blown up to mislead
/// competitors.
pub const BEDAZZLE_FACTOR: u16 = 100;

/// `pct` percent of `x`, rounded down.
pub open spec fn percent_of(x: int, pct: int) -> int {
    x * pct / 100
}

/// The price of a listing after one reduction step.
pub open spec fn reduced(price: int) -> int {
    percent_of(price, 100 - PRICE_REDUCTION_PERCENT)
}

/// The price of a listing after one increase step.
pub open spec fn increased(price: int) -> int {
    percent_of(price, 100 + PRICE_INCREASE_PERCENT)
}

/// The lowest price the engine asks for an article before the late game.
pub open spec fn low_selling_price(average: int) -> int {
    percent_of(average, LOW_SELL_PERCENT as int)
}

/// The price at which a new listing of an article starts.
pub open spec fn high_selling_price(average: int) -> int {
    percent_of(average, HIGH_SELL_PERCENT as int)
}

/// The highest unit price the engine pays for an article.
pub open spec fn buying_limit(average: int) -> int {
    percent_of(average, BUY_PERCENT as int)
}

/// The price of an empty listing after it was blown up.
pub open spec fn bedazzled(price: int) -> int {
    price * BEDAZZLE_FACTOR
}

/// The price one reduction step below `price`, held at the low selling price
/// of the article unless the floor is lifted.
pub open spec fn floored_reduction(price: int, average: int, floor_lifted: bool) -> int {
    if floor_lifted || reduced(price) > low_selling_price(average) {
        reduced(price)
    } else {
        low_selling_price(average)
    }
}

/// The sum of a series of prices.
pub open spec fn total(prices: Seq<u64>) -> int
    decreases prices.len(),
{
    if prices.len() == 0 {
        0
    } else {
        total(prices.drop_last()) + prices.last()
    }
}

/// The arithmetic mean of a non-empty series of prices, rounded down.
pub open spec fn mean(prices: Seq<u64>) -> int
    recommends
        prices.len() > 0,
{
    total(prices) / (prices.len() as int)
}

/// `pct` percent of an amount, rounded down. The product of the amount and
/// the percentage must fit in 128 bits.
pub fn percent(x: i128, pct: u16) -> (r: i128)
    requires
        i128::MIN <= x * pct <= i128::MAX,
    ensures
        r == percent_of(x as int, pct as int),
{
    let product: i128 = x * (pct as i128);
    let quotient: i128 = product / 100;
    if product % 100 < 0 {
        quotient - 1
    } else {
        quotient
    }
}

/// The product of a 64-bit amount and a 16-bit factor fits in 128 bits.
proof fn lemma_product_fits(x: int, factor: int)
    by (nonlinear_arith)
    requires
        -0x1_0000_0000_0000_0000 <= x <= 0x1_0000_0000_0000_0000,
        0 <= factor <= 0xFFFF,
    ensures
        i128::MIN <= x * factor <= i128::MAX,
{
}

/// One reduction step on a listing's price.
pub fn reduce_price(price: i64) -> (r: i128)
    ensures
        r == reduced(price as int),
{
    proof {
        lemma_product_fits(price as int, 100 - PRICE_REDUCTION_PERCENT);
    }
    percent(price as i128, 100 - PRICE_REDUCTION_PERCENT)
}

/// One increase step on a listing's price.
pub fn increase_price(price: i64) -> (r: i128)
    ensures
        r == increased(price as int),
{
    proof {
        lemma_product_fits(price as int, 100 + PRICE_INCREASE_PERCENT);
    }
    percent(price as i128, 100 + PRICE_INCREASE_PERCENT)
}

/// The lowest price asked for an article of the given average price.
pub fn low_price(average: u64) -> (r: i128)
    ensures
        r == low_selling_price(average as int),
{
    proof {
        lemma_product_fits(average as int, LOW_SELL_PERCENT as int);
    }
    percent(average as i128, LOW_SELL_PERCENT)
}

/// The starting price of a new listing of an article of the given average
/// price.
pub fn high_price(average: u64) -> (r: i128)
    ensures
        r == high_selling_price(average as int),
{
    proof {
        lemma_product_fits(average as int, HIGH_SELL_PERCENT as int);
    }
    percent(average as i128, HIGH_SELL_PERCENT)
}

/// The highest unit price paid for an article of the given average price.
pub fn buy_limit(average: u64) -> (r: i128)
    ensures
        r == buying_limit(average as int),
{
    proof {
        lemma_product_fits(average as int, BUY_PERCENT as int);
    }
    percent(average as i128, BUY_PERCENT)
}

/// The blown-up price of an empty listing.
pub fn bedazzle_price(price: i64) -> (r: i128)
    ensures
        r == bedazzled(price as int),
{
    proof {
        lemma_product_fits(price as int, BEDAZZLE_FACTOR as int);
    }
    (price as i128) * (BEDAZZLE_FACTOR as i128)
}

/// The price of an unsold listing, or of a competitor's listing to stay
/// below: one reduction step down, but not under the article's low selling
/// price while the floor holds.
pub fn floored_reduce(price: i64, average: u64, floor_lifted: bool) -> (r: i128)
    ensures
        r == floored_reduction(price as int, average as int, floor_lifted),
{
    let lowered = reduce_price(price);
    let floor = low_price(average);
    if floor_lifted || lowered > floor {
        lowered
    } else {
        floor
    }
}

/// A percentage of an amount is exact but for the rounding: it is the
/// largest whole number whose hundredfold is not above the product of the
/// amount and the percentage.
pub proof fn lemma_percent_is_rounded_down(x: int, pct: int)
    ensures
        100 * percent_of(x, pct) <= x * pct < 100 * percent_of(x, pct) + 100,
{
    lemma_fundamental_div_mod(x * pct, 100);
    lemma_mod_bound(x * pct, 100);
}

/// The sum of `n` prices is at most `n` times the largest price.
pub proof fn lemma_total_bound(prices: Seq<u64>)
    ensures
        0 <= total(prices) <= prices.len() * u64::MAX,
    decreases prices.len(),
{
    if prices.len() > 0 {
        lemma_total_bound(prices.drop_last());
        assert((prices.len() - 1) * u64::MAX + u64::MAX == prices.len() * u64::MAX)
            by (nonlinear_arith);
    }
}

/// The mean of a series of prices is a price: it fits in 64 bits.
pub proof fn lemma_mean_fits(prices: Seq<u64>)
    requires
        prices.len() > 0,
    ensures
        0 <= mean(prices) <= u64::MAX,
{
    lemma_total_bound(prices);
    let n = prices.len() as int;
    lemma_div_is_ordered(0, total(prices), n);
    lemma_div_is_ordered(total(prices), n * u64::MAX, n);
    lemma_div_multiples_vanish(u64::MAX as int, n);
}

/// What the rules derive from a listing's price and an average price fits
/// in 128 bits; a reduction step lowers a price above 0, and an increase
/// step does not lower it.
pub proof fn lemma_prices_fit(price: int, average: int)
    requires
        i64::MIN <= price <= i64::MAX,
        0 <= average <= u64::MAX,
    ensures
        i128::MIN <= reduced(price) <= i128::MAX,
        i128::MIN <= increased(price) <= i128::MAX,
        i128::MIN <= bedazzled(price) <= i128::MAX,
        0 <= low_selling_price(average) <= i128::MAX,
        0 <= high_selling_price(average) <= i128::MAX,
        0 <= buying_limit(average) <= i128::MAX,
        price > 0 ==> 0 <= reduced(price) < price,
        price > 0 ==> increased(price) >= price,
        forall|lifted: bool|
            i128::MIN <= #[trigger] floored_reduction(price, average, lifted) <= i128::MAX,
{
}

} // verus!
