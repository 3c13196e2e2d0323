//! Stock liquidation: what the player holds is put up for sale.

use std::collections::HashMap;
use vstd::prelude::*;
use crate::client::history::{average_of, known_average, series, ArticlePriceHistory};
use crate::client::types::{Listing, PlayerStock};
use crate::find::{first, lemma_first_is, lemma_first_is_none};
use crate::game::{ListingUpdate, NewListing};
use crate::money::{high_price, high_selling_price};

verus! {

/// What becomes of one position of the player's stock.
#[derive(Debug, Clone, Copy, PartialEq, Eq, Structural)]
pub enum Liquidation {
    /// The units go into a listing that the trader has for the article: its
    /// count grows by them, its price stays.
    Restock(ListingUpdate),
    /// The trader has no listing for the article: one is opened for the
    /// units, at the high selling price of the article.
    Launch(NewListing),
    /// The trader has no listing for the article, and no supplier price of
    /// the article was ever seen: nothing tells what to ask for it. The
    /// position is left alone.
    NoPriceHistory { article_id: usize },
}

/// The listings of a given article.
pub open spec fn listing_of(article_id: usize) -> spec_fn(Listing) -> bool {
    |listing: Listing| listing.article == article_id
}

/// What becomes of a position of the player's stock, given the trader's
/// listings: the first listing of the article takes the units.
pub open spec fn liquidated(
    position: PlayerStock,
    own: Seq<Listing>,
    series: Map<usize, Seq<u64>>,
) -> Liquidation {
    match first(own, listing_of(position.article_id)) {
        Some(i) => Liquidation::Restock(
            ListingUpdate {
                listing_id: own[i].id,
                count: (own[i].count + position.stock) as u128,
                price: own[i].price as i128,
            },
        ),
        None => match known_average(series, position.article_id) {
            Some(average) => Liquidation::Launch(
                NewListing {
                    article_id: position.article_id,
                    count: position.stock,
                    price: high_selling_price(average) as i128,
                },
            ),
            None => Liquidation::NoPriceHistory { article_id: position.article_id },
        },
    }
}

/// What becomes of one position of the player's stock.
pub fn liquidate_position(
    position: &PlayerStock,
    own: &Vec<Listing>,
    histories: &HashMap<usize, ArticlePriceHistory>,
) -> (decision: Liquidation)
    ensures
        decision == liquidated(*position, own@, series(histories@)),
{
    let mut i: usize = 0;
    while i < own.len()
        invariant
            i <= own@.len(),
            forall|k: int| 0 <= k < i ==> !listing_of(position.article_id)(#[trigger] own@[k]),
        decreases own@.len() - i,
    {
        if own[i].article == position.article_id {
            proof {
                lemma_first_is(own@, listing_of(position.article_id), i as int);
            }
            return Liquidation::Restock(
                ListingUpdate {
                    listing_id: own[i].id,
                    count: own[i].count as u128 + position.stock as u128,
                    price: own[i].price as i128,
                },
            );
        }
        i = i + 1;
    }
    proof {
        lemma_first_is_none(own@, listing_of(position.article_id));
    }
    match average_of(histories, position.article_id) {
        Some(average) => Liquidation::Launch(
            NewListing {
                article_id: position.article_id,
                count: position.stock,
                price: high_price(average),
            },
        ),
        None => Liquidation::NoPriceHistory { article_id: position.article_id },
    }
}

/// What becomes of the player's stock, position by position. Every decision
/// goes by the trader's listings as given: a listing that takes the units of
/// one position is the same for the next.
pub fn liquidate_stock(
    stock: &Vec<PlayerStock>,
    own: &Vec<Listing>,
    histories: &HashMap<usize, ArticlePriceHistory>,
) -> (decisions: Vec<Liquidation>)
    ensures
        decisions@.len() == stock@.len(),
        forall|i: int|
            0 <= i < stock@.len() ==> #[trigger] decisions@[i] == liquidated(
                stock@[i],
                own@,
                series(histories@),
            ),
{
    let mut decisions: Vec<Liquidation> = Vec::new();
    let mut i: usize = 0;
    while i < stock.len()
        invariant
            i <= stock@.len(),
            decisions@.len() == i,
            forall|k: int|
                0 <= k < i ==> #[trigger] decisions@[k] == liquidated(
                    stock@[k],
                    own@,
                    series(histories@),
                ),
        decreases stock@.len() - i,
    {
        decisions.push(liquidate_position(&stock[i], own, histories));
        i = i + 1;
    }
    decisions
}

} // verus!
