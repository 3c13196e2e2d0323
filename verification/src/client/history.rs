//! The prices that suppliers asked for an article, as they were seen.

use std::collections::HashMap;
use vstd::prelude::*;
use vstd::arithmetic::div_mod::{lemma_div_is_ordered, lemma_div_multiples_vanish};
use vstd::arithmetic::div_mod::{lemma_fundamental_div_mod, lemma_mod_bound};
use crate::client::types::{Stock, Supplier};
use crate::money::{mean, total};

verus! {

/// The supplier prices seen for one article, in the order in which they
/// were seen.
pub struct ArticlePriceHistory {
    pub supplier_price_history: Vec<u64>,
}

/// The series after `price` was seen: a price equal to the last one recorded
/// is not recorded again.
pub open spec fn recorded(prices: Seq<u64>, price: u64) -> Seq<u64> {
    if prices.len() > 0 && prices.last() == price {
        prices
    } else {
        prices.push(price)
    }
}

/// The recorded series of every article that has one.
pub open spec fn series(histories: Map<usize, ArticlePriceHistory>) -> Map<usize, Seq<u64>> {
    Map::new(
        |article_id: usize| histories.contains_key(article_id),
        |article_id: usize| histories[article_id]@,
    )
}

/// The average price of an article, where one is known: the mean of what was
/// recorded for it.
pub open spec fn known_average(series: Map<usize, Seq<u64>>, article_id: usize) -> Option<int> {
    if series.contains_key(article_id) && series[article_id].len() > 0 {
        Some(mean(series[article_id]))
    } else {
        None
    }
}

/// The series after a supplier was seen to ask `price` for an article: the
/// first price of an article opens its series.
pub open spec fn recorded_for(series: Map<usize, Seq<u64>>, article_id: usize, price: u64) -> Map<
    usize,
    Seq<u64>,
> {
    if series.contains_key(article_id) {
        series.insert(article_id, recorded(series[article_id], price))
    } else {
        series.insert(article_id, seq![price])
    }
}

impl View for ArticlePriceHistory {
    type V = Seq<u64>;

    open spec fn view(&self) -> Seq<u64> {
        self.supplier_price_history@
    }
}

impl ArticlePriceHistory {
    /// A history that starts with one price.
    pub fn new(supplier_price: u64) -> (history: Self)
        ensures
            history@ == seq![supplier_price],
    {
        let mut prices: Vec<u64> = Vec::new();
        prices.push(supplier_price);
        ArticlePriceHistory { supplier_price_history: prices }
    }

    /// The mean of the recorded prices, rounded down to a whole micro; `None`
    /// while nothing is recorded.
    pub fn average_price(&self) -> (average: Option<u64>)
        ensures
            match average {
                Some(a) => self@.len() > 0 && a == mean(self@),
                None => self@.len() == 0,
            },
    {
        let n: usize = self.supplier_price_history.len();
        if n == 0 {
            return None;
        }
        let mut sum: u128 = 0;
        let mut i: usize = 0;
        while i < n
            invariant
                i <= n,
                n == self.supplier_price_history@.len(),
                sum == total(self@.take(i as int)),
                sum <= i * 0xFFFF_FFFF_FFFF_FFFF,
            decreases n - i,
        {
            assert(self@.take(i as int + 1).drop_last() =~= self@.take(i as int));
            assert((i + 1) * 0xFFFF_FFFF_FFFF_FFFF <= 0xFFFF_FFFF_FFFF_FFFF
                * 0xFFFF_FFFF_FFFF_FFFF) by (nonlinear_arith)
                requires
                    0 <= i + 1 <= 0xFFFF_FFFF_FFFF_FFFF,
            ;
            sum = sum + self.supplier_price_history[i] as u128;
            i = i + 1;
        }
        assert(self@.take(n as int) =~= self@);
        let average: u128 = sum / (n as u128);
        proof {
            lemma_div_is_ordered(sum as int, n * 0xFFFF_FFFF_FFFF_FFFF, n as int);
            lemma_div_multiples_vanish(0xFFFF_FFFF_FFFF_FFFF, n as int);
        }
        Some(average as u64)
    }

    /// Records a price, unless it repeats the last one recorded.
    pub fn record_supplier_price(&mut self, supplier_price: u64)
        ensures
            final(self)@ == recorded(old(self)@, supplier_price),
    {
        let n: usize = self.supplier_price_history.len();
        if n == 0 || self.supplier_price_history[n - 1] != supplier_price {
            self.supplier_price_history.push(supplier_price);
        }
    }
}

/// The average price of an article, where the histories know one.
pub fn average_of(histories: &HashMap<usize, ArticlePriceHistory>, article_id: usize) -> (average:
    Option<u64>)
    ensures
        match average {
            Some(a) => known_average(series(histories@), article_id) == Some(a as int),
            None => known_average(series(histories@), article_id) is None,
        },
{
    match histories.get(&article_id) {
        Some(history) => history.average_price(),
        None => None,
    }
}

/// Records that a supplier asks `price` for an article: the first price of
/// an article opens its history, a later one is appended to it unless it
/// repeats the last one.
pub fn record(
    histories: &mut HashMap<usize, ArticlePriceHistory>,
    article_id: usize,
    price: u64,
)
    ensures
        series(final(histories)@) == recorded_for(series(old(histories)@), article_id, price),
{
    match histories.remove(&article_id) {
        Some(mut history) => {
            history.record_supplier_price(price);
            histories.insert(article_id, history);
        },
        None => {
            histories.insert(article_id, ArticlePriceHistory::new(price));
        },
    }
}

/// Seeing the same price twice in a row leaves the series as it was after
/// the first time.
pub proof fn lemma_repeated_price_is_recorded_once(prices: Seq<u64>, price: u64)
    ensures
        recorded(recorded(prices, price), price) == recorded(prices, price),
{
}

/// A price that differs from the last one recorded makes the series one
/// longer and ends it; so does the first price of an empty series.
pub proof fn lemma_new_price_grows_series(prices: Seq<u64>, price: u64)
    requires
        prices.len() == 0 || prices.last() != price,
    ensures
        recorded(prices, price).len() == prices.len() + 1,
        recorded(prices, price).last() == price,
        recorded(prices, price).drop_last() == prices,
{
}

/// No two neighbours of a series are equal once every price went through
/// `recorded`.
pub proof fn lemma_recording_keeps_neighbours_distinct(prices: Seq<u64>, price: u64)
    requires
        forall|i: int| 0 < i < prices.len() ==> prices[i - 1] != #[trigger] prices[i],
    ensures
        forall|i: int|
            0 < i < recorded(prices, price).len() ==> recorded(prices, price)[i - 1]
                != #[trigger] recorded(prices, price)[i],
{
}

/// The mean is the arithmetic mean rounded down: it is the one whole number
/// `m` with `m * len <= total < (m + 1) * len`.
pub proof fn lemma_mean_is_rounded_down(prices: Seq<u64>)
    requires
        prices.len() > 0,
    ensures
        mean(prices) * prices.len() <= total(prices),
        total(prices) < (mean(prices) + 1) * prices.len(),
{
    let n = prices.len() as int;
    lemma_fundamental_div_mod(total(prices), n);
    lemma_mod_bound(total(prices), n);
    assert(n * mean(prices) == mean(prices) * n) by (nonlinear_arith);
    assert((mean(prices) + 1) * n == mean(prices) * n + n) by (nonlinear_arith);
}

/// The series after the first `n` positions of a supplier's stock were seen,
/// in order.
pub open spec fn recorded_stock(series: Map<usize, Seq<u64>>, stock: Seq<Stock>, n: int) -> Map<
    usize,
    Seq<u64>,
>
    decreases n,
{
    if n <= 0 {
        series
    } else {
        recorded_for(
            recorded_stock(series, stock, n - 1),
            stock[n - 1].article_id,
            stock[n - 1].price,
        )
    }
}

/// The series after the whole stock of the first `n` suppliers was seen,
/// supplier by supplier.
pub open spec fn recorded_suppliers(
    series: Map<usize, Seq<u64>>,
    suppliers: Seq<Supplier>,
    n: int,
) -> Map<usize, Seq<u64>>
    decreases n,
{
    if n <= 0 {
        series
    } else {
        recorded_stock(
            recorded_suppliers(series, suppliers, n - 1),
            suppliers[n - 1].stock@,
            suppliers[n - 1].stock@.len() as int,
        )
    }
}

/// Records the price of every position of every supplier's stock, in the
/// order of the snapshot.
pub fn record_suppliers(
    histories: &mut HashMap<usize, ArticlePriceHistory>,
    suppliers: &Vec<Supplier>,
)
    ensures
        series(final(histories)@) == recorded_suppliers(
            series(old(histories)@),
            suppliers@,
            suppliers@.len() as int,
        ),
{
    let mut i: usize = 0;
    while i < suppliers.len()
        invariant
            i <= suppliers@.len(),
            series(histories@) == recorded_suppliers(series(old(histories)@), suppliers@, i as int),
        decreases suppliers@.len() - i,
    {
        let stock: &Vec<Stock> = &suppliers[i].stock;
        let ghost before = series(histories@);
        let mut j: usize = 0;
        while j < stock.len()
            invariant
                j <= stock@.len(),
                series(histories@) == recorded_stock(before, stock@, j as int),
            decreases stock@.len() - j,
        {
            record(histories, stock[j].article_id, stock[j].price);
            j = j + 1;
        }
        i = i + 1;
    }
}

} // verus!
