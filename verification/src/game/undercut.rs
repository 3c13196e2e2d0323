//! The undercut loop: for the rest of a tick the trader keeps its prices
//! just below those of its competitors.
//!
//! One round of the loop first looks at the competitors' listings, one by
//! one (`note_competitor`), and then at the trader's own (`undercut_listing`).
//! Between any two of these steps the caller may look at the clock and stop.

use std::collections::HashMap;
use vstd::prelude::*;
use crate::client::history::{average_of, known_average, series, ArticlePriceHistory};
use crate::client::types::Listing;
use crate::game::schedule::{floor_lifted, is_floor_lifted};
use crate::game::ListingUpdate;
use crate::money::{floored_reduce, floored_reduction, lemma_mean_fits, lemma_prices_fit};
use crate::money::low_selling_price;

verus! {

/// A price is not changed by less than this many micros.
pub const NEGLIGIBLE_PRICE_CHANGE: i128 = 10;

/// The price at which the trader stays below a competitor's listing: one
/// reduction step below the competitor's price, held at the low selling price
/// of the article unless the floor is lifted. Unknown where the average price
/// of the article is unknown.
pub open spec fn price_below(
    competitor: Listing,
    series: Map<usize, Seq<u64>>,
    lifted: bool,
) -> Option<int> {
    match known_average(series, competitor.article) {
        Some(average) => Some(floored_reduction(competitor.price as int, average, lifted)),
        None => None,
    }
}

/// The lowest prices by article after one more competitor's listing was
/// looked at: the price below it becomes the lowest of its article unless a
/// price as low is already known.
pub open spec fn noted(
    lowest: Map<usize, i128>,
    competitor: Listing,
    series: Map<usize, Seq<u64>>,
    lifted: bool,
) -> Map<usize, i128> {
    match price_below(competitor, series, lifted) {
        Some(price) => if lowest.contains_key(competitor.article) && lowest[competitor.article]
            <= price {
            lowest
        } else {
            lowest.insert(competitor.article, price as i128)
        },
        None => lowest,
    }
}

/// By article: the lowest price at which the trader stays below each of the
/// first `n` competitors' listings of it.
pub open spec fn lowest_prices(
    others: Seq<Listing>,
    series: Map<usize, Seq<u64>>,
    lifted: bool,
    n: int,
) -> Map<usize, i128>
    decreases n,
{
    if n <= 0 {
        Map::empty()
    } else {
        noted(lowest_prices(others, series, lifted, n - 1), others[n - 1], series, lifted)
    }
}

/// What the trader does to a listing of its own, given the lowest prices by
/// article: where the lowest price of the listing's article is under the
/// listing's price by at least the negligible change, the listing goes down
/// to it.
pub open spec fn undercut_to(listing: Listing, lowest: Map<usize, i128>) -> Option<ListingUpdate> {
    if lowest.contains_key(listing.article) && lowest[listing.article] < listing.price
        && listing.price - lowest[listing.article] >= NEGLIGIBLE_PRICE_CHANGE {
        Some(
            ListingUpdate {
                listing_id: listing.id,
                count: listing.count as u128,
                price: lowest[listing.article],
            },
        )
    } else {
        None
    }
}

/// What the trader does to a listing of its own to stay below the given
/// competitors.
pub open spec fn undercut(
    listing: Listing,
    others: Seq<Listing>,
    series: Map<usize, Seq<u64>>,
    lifted: bool,
) -> Option<ListingUpdate> {
    undercut_to(listing, lowest_prices(others, series, lifted, others.len() as int))
}

/// Looks at one competitor's listing: the price below it becomes the lowest
/// of its article unless a price as low is already known. Says whether the
/// listing gives a price; it gives none where the average price of its
/// article is unknown.
pub fn note_competitor(
    lowest: &mut HashMap<usize, i128>,
    competitor: &Listing,
    histories: &HashMap<usize, ArticlePriceHistory>,
    lifted: bool,
) -> (priced: bool)
    ensures
        priced == known_average(series(histories@), competitor.article) is Some,
        final(lowest)@ == noted(old(lowest)@, *competitor, series(histories@), lifted),
{
    match average_of(histories, competitor.article) {
        Some(average) => {
            let price: i128 = floored_reduce(competitor.price, average, lifted);
            let known: Option<i128> = match lowest.get(&competitor.article) {
                Some(p) => Some(*p),
                None => None,
            };
            match known {
                Some(p) => {
                    if price < p {
                        lowest.insert(competitor.article, price);
                    }
                },
                None => {
                    lowest.insert(competitor.article, price);
                },
            }
            true
        },
        None => false,
    }
}

/// What the trader does to a listing of its own, given the lowest prices by
/// article.
pub fn undercut_listing(listing: &Listing, lowest: &HashMap<usize, i128>) -> (update: Option<
    ListingUpdate,
>)
    ensures
        update == undercut_to(*listing, lowest@),
{
    match lowest.get(&listing.article) {
        Some(price) => {
            if *price <= listing.price as i128 - NEGLIGIBLE_PRICE_CHANGE {
                Some(
                    ListingUpdate {
                        listing_id: listing.id,
                        count: listing.count as u128,
                        price: *price,
                    },
                )
            } else {
                None
            }
        },
        None => None,
    }
}

/// By article: the lowest price at which the trader stays below the
/// competitors' listings of it.
pub fn lowest_prices_below(
    others: &Vec<Listing>,
    histories: &HashMap<usize, ArticlePriceHistory>,
    lifted: bool,
) -> (lowest: HashMap<usize, i128>)
    ensures
        lowest@ == lowest_prices(others@, series(histories@), lifted, others@.len() as int),
{
    let mut lowest: HashMap<usize, i128> = HashMap::new();
    let mut i: usize = 0;
    while i < others.len()
        invariant
            i <= others@.len(),
            lowest@ == lowest_prices(others@, series(histories@), lifted, i as int),
        decreases others@.len() - i,
    {
        note_competitor(&mut lowest, &others[i], histories, lifted);
        i = i + 1;
    }
    lowest
}

/// One whole round of the undercut loop, `elapsed_secs` after the start of
/// the game: what the trader does to each of its listings to stay below its
/// competitors.
pub fn undercut_listings(
    own: &Vec<Listing>,
    others: &Vec<Listing>,
    histories: &HashMap<usize, ArticlePriceHistory>,
    elapsed_secs: u64,
) -> (updates: Vec<Option<ListingUpdate>>)
    ensures
        updates@.len() == own@.len(),
        forall|i: int|
            0 <= i < own@.len() ==> #[trigger] updates@[i] == undercut(
                own@[i],
                others@,
                series(histories@),
                floor_lifted(elapsed_secs),
            ),
{
    let lifted: bool = is_floor_lifted(elapsed_secs);
    let lowest: HashMap<usize, i128> = lowest_prices_below(others, histories, lifted);
    let mut updates: Vec<Option<ListingUpdate>> = Vec::new();
    let mut i: usize = 0;
    while i < own.len()
        invariant
            i <= own@.len(),
            lifted == floor_lifted(elapsed_secs),
            lowest@ == lowest_prices(others@, series(histories@), lifted, others@.len() as int),
            updates@.len() == i,
            forall|k: int|
                0 <= k < i ==> #[trigger] updates@[k] == undercut(
                    own@[k],
                    others@,
                    series(histories@),
                    lifted,
                ),
        decreases own@.len() - i,
    {
        updates.push(undercut_listing(&own[i], &lowest));
        i = i + 1;
    }
    updates
}

/// The lowest price of an article is the least of the prices below the
/// competitors' listings of it: one of them gives it, and none gives a lower
/// one. An article has a lowest price exactly where one of the listings of it
/// gives a price.
pub proof fn lemma_lowest_price_is_least(
    others: Seq<Listing>,
    series: Map<usize, Seq<u64>>,
    lifted: bool,
    article_id: usize,
    n: int,
)
    requires
        0 <= n <= others.len(),
    ensures
        lowest_prices(others, series, lifted, n).contains_key(article_id) ==> {
            let lowest = lowest_prices(others, series, lifted, n)[article_id];
            &&& exists|j: int|
                0 <= j < n && (#[trigger] others[j]).article == article_id && price_below(
                    others[j],
                    series,
                    lifted,
                ) == Some(lowest as int)
            &&& forall|j: int|
                0 <= j < n && (#[trigger] others[j]).article == article_id && price_below(
                    others[j],
                    series,
                    lifted,
                ) is Some ==> lowest <= price_below(others[j], series, lifted).unwrap()
        },
        !lowest_prices(others, series, lifted, n).contains_key(article_id) ==> forall|j: int|
            0 <= j < n && (#[trigger] others[j]).article == article_id ==> price_below(
                others[j],
                series,
                lifted,
            ) is None,
    decreases n,
{
    if n > 0 {
        lemma_lowest_price_is_least(others, series, lifted, article_id, n - 1);
        let competitor = others[n - 1];
        if price_below(competitor, series, lifted) is Some {
            lemma_mean_fits(series[competitor.article]);
            lemma_prices_fit(
                competitor.price as int,
                known_average(series, competitor.article).unwrap(),
            );
        }
    }
}

/// An update of the undercut loop lowers the price of the listing, by at
/// least the negligible change, and keeps its count. Before the floor is
/// lifted the new price is not below the low selling price of the article.
pub proof fn lemma_undercut_lowers_price(
    listing: Listing,
    others: Seq<Listing>,
    series: Map<usize, Seq<u64>>,
    lifted: bool,
)
    requires
        undercut(listing, others, series, lifted) is Some,
    ensures
        undercut(listing, others, series, lifted).unwrap().listing_id == listing.id,
        undercut(listing, others, series, lifted).unwrap().count == listing.count,
        undercut(listing, others, series, lifted).unwrap().price <= listing.price
            - NEGLIGIBLE_PRICE_CHANGE,
        known_average(series, listing.article) is Some,
        !lifted ==> undercut(listing, others, series, lifted).unwrap().price >= low_selling_price(
            known_average(series, listing.article).unwrap(),
        ),
{
    lemma_lowest_price_is_least(others, series, lifted, listing.article, others.len() as int);
    let lowest = lowest_prices(others, series, lifted, others.len() as int)[listing.article];
    let j = choose|j: int|
        0 <= j < others.len() && (#[trigger] others[j]).article == listing.article && price_below(
            others[j],
            series,
            lifted,
        ) == Some(lowest as int);
    let average = known_average(series, listing.article).unwrap();
    lemma_mean_fits(series[listing.article]);
    lemma_prices_fit(others[j].price as int, average);
}

} // verus!
