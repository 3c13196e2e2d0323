//! The trader's local picture of the marketplace.

pub mod helper;
pub mod history;
pub mod trend;
pub mod types;

use std::collections::HashMap;
use vstd::prelude::*;
use crate::client::history::{record_suppliers, recorded_suppliers, series, ArticlePriceHistory};
use crate::client::trend::{observe, observed};
use crate::client::types::{Article, Listing, Player, Supplier, Tag};

verus! {

/// What the trader knows of the marketplace: the last snapshot of each kind,
/// and what it has learnt from all of them.
pub struct Client {
    pub player: Player,
    pub articles: Vec<Article>,
    /// By article: the supplier prices seen so far.
    pub article_price_history: HashMap<usize, ArticlePriceHistory>,
    pub tags: Vec<Tag>,
    /// By tag: its trend level.
    pub tag_trend_levels: HashMap<usize, usize>,
    pub suppliers: Vec<Supplier>,
    pub listings: Vec<Listing>,
    /// The listings that the trader made or changed to mislead competitors.
    pub bedazzlement_listings: Vec<usize>,
}

/// Whether two tag catalogs hold the same tags with the same similar tags
/// in the same order.
pub open spec fn same_catalog(one: Seq<Tag>, other: Seq<Tag>) -> bool {
    &&& one.len() == other.len()
    &&& forall|i: int|
        0 <= i < one.len() ==> (#[trigger] one[i]).id == other[i].id && one[i].similar_tags@
            == other[i].similar_tags@
}

/// Whether two lists of identifiers are equal.
pub fn same_ids(one: &Vec<usize>, other: &Vec<usize>) -> (same: bool)
    ensures
        same == (one@ == other@),
{
    if one.len() != other.len() {
        return false;
    }
    let mut i: usize = 0;
    while i < one.len()
        invariant
            i <= one@.len(),
            one@.len() == other@.len(),
            forall|k: int| 0 <= k < i ==> one@[k] == other@[k],
        decreases one@.len() - i,
    {
        if one[i] != other[i] {
            return false;
        }
        i = i + 1;
    }
    assert(one@ =~= other@);
    true
}

/// Whether two tag catalogs are the same.
pub fn is_same_catalog(one: &Vec<Tag>, other: &Vec<Tag>) -> (same: bool)
    ensures
        same == same_catalog(one@, other@),
{
    if one.len() != other.len() {
        return false;
    }
    let mut i: usize = 0;
    while i < one.len()
        invariant
            i <= one@.len(),
            one@.len() == other@.len(),
            forall|k: int|
                0 <= k < i ==> (#[trigger] one@[k]).id == other@[k].id && one@[k].similar_tags@
                    == other@[k].similar_tags@,
        decreases one@.len() - i,
    {
        if one[i].id != other[i].id || !same_ids(&one[i].similar_tags, &other[i].similar_tags) {
            return false;
        }
        i = i + 1;
    }
    true
}

impl Client {
    /// A client that has seen nothing yet. Its player has no stock and more
    /// money than any refresh will report.
    pub fn new() -> (client: Self)
        ensures
            client.player.id == 0,
            client.player.money == i64::MAX,
            client.player.stock@.len() == 0,
            client.articles@.len() == 0,
            client.article_price_history@ == Map::<usize, ArticlePriceHistory>::empty(),
            client.tags@.len() == 0,
            client.tag_trend_levels@ == Map::<usize, usize>::empty(),
            client.suppliers@.len() == 0,
            client.listings@.len() == 0,
            client.bedazzlement_listings@.len() == 0,
    {
        Client {
            player: Player { id: 0, money: i64::MAX, stock: Vec::new() },
            articles: Vec::new(),
            article_price_history: HashMap::new(),
            tags: Vec::new(),
            tag_trend_levels: HashMap::new(),
            suppliers: Vec::new(),
            listings: Vec::new(),
            bedazzlement_listings: Vec::new(),
        }
    }

    /// Takes over the answer to a request for the player's own state. The
    /// answer counts only if it holds exactly one player; any other answer
    /// changes nothing.
    pub fn store_player(&mut self, latest: Vec<Player>) -> (accepted: bool)
        ensures
            accepted == (latest@.len() == 1),
            accepted ==> *final(self) == (Client { player: latest@[0], ..*old(self) }),
            !accepted ==> *final(self) == *old(self),
    {
        let mut latest = latest;
        if latest.len() != 1 {
            return false;
        }
        match latest.pop() {
            Some(player) => {
                self.player = player;
                true
            },
            None => false,
        }
    }

    /// Takes over a fresh article catalog.
    pub fn store_articles(&mut self, latest: Vec<Article>)
        ensures
            *final(self) == (Client { articles: latest, ..*old(self) }),
    {
        self.articles = latest;
    }

    /// Takes over a fresh tag catalog. Where it differs from the one before,
    /// every tag in it that is not yet known starts at trend level 0; the
    /// levels of known tags stay.
    pub fn store_tags(&mut self, latest: Vec<Tag>)
        ensures
            final(self).tags == latest,
            final(self).tag_trend_levels@ == if same_catalog(old(self).tags@, latest@) {
                old(self).tag_trend_levels@
            } else {
                observed(old(self).tag_trend_levels@, latest@, latest@.len() as int)
            },
            final(self).player == old(self).player,
            final(self).articles == old(self).articles,
            final(self).article_price_history == old(self).article_price_history,
            final(self).suppliers == old(self).suppliers,
            final(self).listings == old(self).listings,
            final(self).bedazzlement_listings == old(self).bedazzlement_listings,
    {
        if !is_same_catalog(&self.tags, &latest) {
            observe(&mut self.tag_trend_levels, &latest);
        }
        self.tags = latest;
    }

    /// Takes over a fresh supplier snapshot and records every price in it.
    pub fn store_suppliers(&mut self, latest: Vec<Supplier>)
        ensures
            final(self).suppliers == latest,
            series(final(self).article_price_history@) == recorded_suppliers(
                series(old(self).article_price_history@),
                latest@,
                latest@.len() as int,
            ),
            final(self).player == old(self).player,
            final(self).articles == old(self).articles,
            final(self).tags == old(self).tags,
            final(self).tag_trend_levels == old(self).tag_trend_levels,
            final(self).listings == old(self).listings,
            final(self).bedazzlement_listings == old(self).bedazzlement_listings,
    {
        record_suppliers(&mut self.article_price_history, &latest);
        self.suppliers = latest;
    }

    /// Takes over a fresh snapshot of all listings on the marketplace.
    pub fn store_listings(&mut self, latest: Vec<Listing>)
        ensures
            *final(self) == (Client { listings: latest, ..*old(self) }),
    {
        self.listings = latest;
    }
}

} // verus!
