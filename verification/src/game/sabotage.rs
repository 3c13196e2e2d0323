//! Sabotage: once the game has run for a while, the trader distorts the
//! prices that competitors read off the marketplace.

use rand::Rng;
use vstd::prelude::*;
use crate::client::types::{Listing, PlayerStock};
use crate::client::Client;
use crate::game::schedule::{bedazzles, is_bedazzling};
use crate::game::{ListingUpdate, NewListing};
use crate::money::{bedazzle_price, bedazzled};

verus! {

/// The lowest price of a decoy listing, in micros.
pub const DECOY_PRICE_LOW: i64 = -1_000_000_000;

/// The highest price of a decoy listing, in micros.
pub const DECOY_PRICE_HIGH: i64 = 0;

/// The update that blows up the price of an empty listing.
pub open spec fn bedazzlement(listing: Listing) -> ListingUpdate {
    ListingUpdate {
        listing_id: listing.id,
        count: 0,
        price: bedazzled(listing.price as int) as i128,
    }
}

/// The updates for the empty listings among the first `n` listings, in
/// their order.
pub open spec fn bedazzlements(own: Seq<Listing>, n: int) -> Seq<ListingUpdate>
    decreases n,
{
    if n <= 0 {
        Seq::empty()
    } else if own[n - 1].count == 0 {
        bedazzlements(own, n - 1).push(bedazzlement(own[n - 1]))
    } else {
        bedazzlements(own, n - 1)
    }
}

/// The identifiers of the empty listings among the first `n` listings, in
/// their order.
pub open spec fn bedazzled_ids(own: Seq<Listing>, n: int) -> Seq<usize>
    decreases n,
{
    if n <= 0 {
        Seq::empty()
    } else if own[n - 1].count == 0 {
        bedazzled_ids(own, n - 1).push(own[n - 1].id)
    } else {
        bedazzled_ids(own, n - 1)
    }
}

/// Whether a listing is a decoy for a position of the player's stock: an
/// empty listing of the position's article at a price within the decoy
/// range.
pub open spec fn is_decoy_for(listing: NewListing, position: PlayerStock) -> bool {
    &&& listing.article_id == position.article_id
    &&& listing.count == 0
    &&& DECOY_PRICE_LOW <= listing.price <= DECOY_PRICE_HIGH
}

/// A price drawn at random between `low` and `high`, both included.
///
/// Calls `rand::Rng::gen_range` on the generator of `rand::thread_rng` with
/// the inclusive range `low..=high`. The range must not be empty, else
/// `gen_range` panics. Of the result nothing is claimed but that it lies in
/// the range.
#[verifier::external_body]
fn random_price(low: i64, high: i64) -> (price: i64)
    requires
        low <= high,
    ensures
        low <= price <= high,
{
    rand::thread_rng().gen_range(low..=high)
}

/// The decoy for a position of the player's stock at a given price.
pub fn decoy_for(position: &PlayerStock, price: i64) -> (decoy: NewListing)
    ensures
        decoy == (NewListing { article_id: position.article_id, count: 0, price: price as i128 }),
        DECOY_PRICE_LOW <= price <= DECOY_PRICE_HIGH ==> is_decoy_for(decoy, *position),
{
    NewListing { article_id: position.article_id, count: 0, price: price as i128 }
}

/// The decoys of this tick: none before the trader misleads competitors;
/// after that one for each position of the player's stock, at a random
/// price within the decoy range.
pub fn decoy_listings(stock: &Vec<PlayerStock>, elapsed_secs: u64) -> (decoys: Vec<NewListing>)
    ensures
        !bedazzles(elapsed_secs) ==> decoys@.len() == 0,
        bedazzles(elapsed_secs) ==> decoys@.len() == stock@.len(),
        forall|i: int| 0 <= i < decoys@.len() ==> is_decoy_for(#[trigger] decoys@[i], stock@[i]),
{
    let mut decoys: Vec<NewListing> = Vec::new();
    if !is_bedazzling(elapsed_secs) {
        return decoys;
    }
    let mut i: usize = 0;
    while i < stock.len()
        invariant
            i <= stock@.len(),
            decoys@.len() == i,
            forall|k: int| 0 <= k < i ==> is_decoy_for(#[trigger] decoys@[k], stock@[k]),
        decreases stock@.len() - i,
    {
        let price: i64 = random_price(DECOY_PRICE_LOW, DECOY_PRICE_HIGH);
        decoys.push(decoy_for(&stock[i], price));
        i = i + 1;
    }
    decoys
}

impl Client {
    /// Blows up the price of each of the given listings that is empty, once
    /// the trader misleads competitors; before that it does nothing. Each
    /// such listing is from now on known as a bedazzlement, whether or not
    /// the update reaches the marketplace.
    pub fn bedazzle_empty_listings(&mut self, own: &Vec<Listing>, elapsed_secs: u64) -> (updates:
        Vec<ListingUpdate>)
        ensures
            !bedazzles(elapsed_secs) ==> updates@.len() == 0 && *final(self) == *old(self),
            bedazzles(elapsed_secs) ==> updates@ == bedazzlements(own@, own@.len() as int),
            bedazzles(elapsed_secs) ==> final(self).bedazzlement_listings@ == old(
                self,
            ).bedazzlement_listings@ + bedazzled_ids(own@, own@.len() as int),
            final(self).player == old(self).player,
            final(self).articles == old(self).articles,
            final(self).article_price_history == old(self).article_price_history,
            final(self).tags == old(self).tags,
            final(self).tag_trend_levels == old(self).tag_trend_levels,
            final(self).suppliers == old(self).suppliers,
            final(self).listings == old(self).listings,
    {
        let mut updates: Vec<ListingUpdate> = Vec::new();
        if !is_bedazzling(elapsed_secs) {
            return updates;
        }
        let mut i: usize = 0;
        while i < own.len()
            invariant
                i <= own@.len(),
                updates@ == bedazzlements(own@, i as int),
                self.bedazzlement_listings@ == old(self).bedazzlement_listings@ + bedazzled_ids(
                    own@,
                    i as int,
                ),
                self.player == old(self).player,
                self.articles == old(self).articles,
                self.article_price_history == old(self).article_price_history,
                self.tags == old(self).tags,
                self.tag_trend_levels == old(self).tag_trend_levels,
                self.suppliers == old(self).suppliers,
                self.listings == old(self).listings,
            decreases own@.len() - i,
        {
            let listing: Listing = own[i];
            if listing.count == 0 {
                updates.push(
                    ListingUpdate {
                        listing_id: listing.id,
                        count: 0,
                        price: bedazzle_price(listing.price),
                    },
                );
                self.bedazzlement_listings.push(listing.id);
            }
            i = i + 1;
        }
        updates
    }

    /// Takes note that the marketplace opened a decoy under the given
    /// identifier: the listing is from now on known as a bedazzlement.
    pub fn register_bedazzlement(&mut self, listing_id: usize)
        ensures
            final(self).bedazzlement_listings@ == old(self).bedazzlement_listings@.push(listing_id),
            final(self).player == old(self).player,
            final(self).articles == old(self).articles,
            final(self).article_price_history == old(self).article_price_history,
            final(self).tags == old(self).tags,
            final(self).tag_trend_levels == old(self).tag_trend_levels,
            final(self).suppliers == old(self).suppliers,
            final(self).listings == old(self).listings,
    {
        self.bedazzlement_listings.push(listing_id);
    }
}

} // verus!
