//! The pricing policy: what a tick does to the price of each of the trader's
//! listings, and what the sales of the tick do to the trend levels.

use std::collections::HashMap;
use vstd::prelude::*;
use crate::client::helper::{similar_to, tags_of};
use crate::client::history::{average_of, known_average, series, ArticlePriceHistory};
use crate::client::trend::{bump, bumped, held, level_of, reset, zeroed};
use crate::client::trend::{SIMILAR_TAG_LEVEL_INCREASE, TAG_LEVEL_INCREASE};
use crate::client::types::{Article, Listing, Tag};
use crate::client::Client;
use crate::find::{first, lemma_first_is, lemma_first_is_none};
use crate::game::schedule::{floor_lifted, is_floor_lifted};
use crate::game::ListingUpdate;
use crate::money::{floored_reduce, floored_reduction, increase_price, increased};
use crate::money::{lemma_mean_fits, lemma_prices_fit, low_selling_price, reduced};

verus! {

/// What the pricing policy decides for one listing.
#[derive(Debug, Clone, Copy, PartialEq, Eq, Structural)]
pub enum Repricing {
    /// The listing keeps its count and gets a new price.
    Update(ListingUpdate),
    /// The listing was not there a tick ago, so nothing tells whether it
    /// sold. It is left alone.
    NoPreviousListing { listing_id: usize },
    /// No supplier price of the article was ever seen, so nothing tells
    /// what it is worth. The listing is left alone.
    NoPriceHistory { listing_id: usize, article_id: usize },
}

/// The listings with a given identifier.
pub open spec fn listing_with(listing_id: usize) -> spec_fn(Listing) -> bool {
    |listing: Listing| listing.id == listing_id
}

/// How many units of a listing sold since the previous tick: what its count
/// fell by. Unknown for a listing that was not there a tick ago.
pub open spec fn units_sold(previous: Seq<Listing>, listing: Listing) -> Option<nat> {
    match first(previous, listing_with(listing.id)) {
        Some(i) => Some(
            if previous[i].count > listing.count {
                (previous[i].count - listing.count) as nat
            } else {
                0
            },
        ),
        None => None,
    }
}

/// What the policy decides for a listing. A listing that sold gets one
/// increase step. A listing that did not sell gets one reduction step, held
/// at the low selling price of its article unless the floor is lifted.
pub open spec fn repriced(
    listing: Listing,
    previous: Seq<Listing>,
    series: Map<usize, Seq<u64>>,
    lifted: bool,
) -> Repricing {
    match units_sold(previous, listing) {
        Some(units) => match known_average(series, listing.article) {
            Some(average) => Repricing::Update(
                ListingUpdate {
                    listing_id: listing.id,
                    count: listing.count as u128,
                    price: if units == 0 {
                        floored_reduction(listing.price as int, average, lifted) as i128
                    } else {
                        increased(listing.price as int) as i128
                    },
                },
            ),
            None => Repricing::NoPriceHistory {
                listing_id: listing.id,
                article_id: listing.article,
            },
        },
        None => Repricing::NoPreviousListing { listing_id: listing.id },
    }
}

/// The tags of an article, each with the tags similar to it.
pub open spec fn related(articles: Seq<Article>, tags: Seq<Tag>, article_id: usize) -> Seq<
    (usize, Seq<usize>),
> {
    Seq::new(
        tags_of(articles, article_id).len(),
        |j: int|
            (tags_of(articles, article_id)[j], similar_to(tags, tags_of(articles, article_id)[j])),
    )
}

/// The same pairs with each list of similar tags as a sequence.
pub open spec fn plain(pairs: Seq<(usize, Vec<usize>)>) -> Seq<(usize, Seq<usize>)> {
    Seq::new(pairs.len(), |j: int| (pairs[j].0, pairs[j].1@))
}

/// The levels after an article with the given tags did not sell, seen up to
/// its `n`th tag: each of its tags is set back to 0.
pub open spec fn after_no_sale(
    levels: Map<usize, usize>,
    tags: Seq<(usize, Seq<usize>)>,
    n: int,
) -> Map<usize, usize>
    decreases n,
{
    if n <= 0 {
        levels
    } else {
        zeroed(after_no_sale(levels, tags, n - 1), tags[n - 1].0)
    }
}

/// The levels after each of the first `n` of the given tags was raised by
/// `amount`.
pub open spec fn bumped_each(
    levels: Map<usize, usize>,
    tags: Seq<usize>,
    amount: nat,
    n: int,
) -> Map<usize, usize>
    decreases n,
{
    if n <= 0 {
        levels
    } else {
        bumped(bumped_each(levels, tags, amount, n - 1), tags[n - 1], amount)
    }
}

/// The levels after an article with the given tags sold, seen up to its
/// `n`th tag: each of its tags gains the tag increase, and each tag similar
/// to one of them gains the similar-tag increase, once for every tag that it
/// is similar to.
pub open spec fn after_sale(
    levels: Map<usize, usize>,
    tags: Seq<(usize, Seq<usize>)>,
    n: int,
) -> Map<usize, usize>
    decreases n,
{
    if n <= 0 {
        levels
    } else {
        bumped_each(
            bumped(after_sale(levels, tags, n - 1), tags[n - 1].0, TAG_LEVEL_INCREASE as nat),
            tags[n - 1].1,
            SIMILAR_TAG_LEVEL_INCREASE as nat,
            tags[n - 1].1.len() as int,
        )
    }
}

/// The levels after the policy dealt with one listing. A listing that is
/// left alone leaves the levels alone.
pub open spec fn levels_after(
    levels: Map<usize, usize>,
    listing: Listing,
    previous: Seq<Listing>,
    series: Map<usize, Seq<u64>>,
    articles: Seq<Article>,
    tags: Seq<Tag>,
) -> Map<usize, usize> {
    let pairs = related(articles, tags, listing.article);
    match units_sold(previous, listing) {
        Some(units) => if known_average(series, listing.article) is None {
            levels
        } else if units == 0 {
            after_no_sale(levels, pairs, pairs.len() as int)
        } else {
            after_sale(levels, pairs, pairs.len() as int)
        },
        None => levels,
    }
}

/// The levels after the policy dealt with the first `n` listings, one after
/// the other.
pub open spec fn levels_after_all(
    levels: Map<usize, usize>,
    own: Seq<Listing>,
    previous: Seq<Listing>,
    series: Map<usize, Seq<u64>>,
    articles: Seq<Article>,
    tags: Seq<Tag>,
    n: int,
) -> Map<usize, usize>
    decreases n,
{
    if n <= 0 {
        levels
    } else {
        levels_after(
            levels_after_all(levels, own, previous, series, articles, tags, n - 1),
            own[n - 1],
            previous,
            series,
            articles,
            tags,
        )
    }
}

/// Those of the first `n` of the given tags of which no level is known, in
/// their order.
pub open spec fn unknown_among(known: Set<usize>, tags: Seq<usize>, n: int) -> Seq<usize>
    decreases n,
{
    if n <= 0 {
        Seq::empty()
    } else if known.contains(tags[n - 1]) {
        unknown_among(known, tags, n - 1)
    } else {
        unknown_among(known, tags, n - 1).push(tags[n - 1])
    }
}

/// The tags whose level could not be set back when an article did not sell,
/// seen up to the article's `n`th tag: those of its tags of which no level is
/// known.
pub open spec fn unknown_at_no_sale(
    known: Set<usize>,
    tags: Seq<(usize, Seq<usize>)>,
    n: int,
) -> Seq<usize>
    decreases n,
{
    if n <= 0 {
        Seq::empty()
    } else if known.contains(tags[n - 1].0) {
        unknown_at_no_sale(known, tags, n - 1)
    } else {
        unknown_at_no_sale(known, tags, n - 1).push(tags[n - 1].0)
    }
}

/// The tags whose level could not be raised when an article sold, seen up to
/// the article's `n`th tag: each of its tags, and after it each tag similar
/// to it, of which no level is known.
pub open spec fn unknown_at_sale(
    known: Set<usize>,
    tags: Seq<(usize, Seq<usize>)>,
    n: int,
) -> Seq<usize>
    decreases n,
{
    if n <= 0 {
        Seq::empty()
    } else {
        let before = unknown_at_sale(known, tags, n - 1);
        let direct = if known.contains(tags[n - 1].0) {
            before
        } else {
            before.push(tags[n - 1].0)
        };
        direct + unknown_among(known, tags[n - 1].1, tags[n - 1].1.len() as int)
    }
}

/// The tags whose level the policy could not change when it dealt with one
/// listing.
pub open spec fn unknown_for(
    known: Set<usize>,
    listing: Listing,
    previous: Seq<Listing>,
    series: Map<usize, Seq<u64>>,
    articles: Seq<Article>,
    tags: Seq<Tag>,
) -> Seq<usize> {
    let pairs = related(articles, tags, listing.article);
    match units_sold(previous, listing) {
        Some(units) => if known_average(series, listing.article) is None {
            Seq::empty()
        } else if units == 0 {
            unknown_at_no_sale(known, pairs, pairs.len() as int)
        } else {
            unknown_at_sale(known, pairs, pairs.len() as int)
        },
        None => Seq::empty(),
    }
}

/// The tags whose level the policy could not change when it dealt with the
/// first `n` listings, in the order in which it came upon them.
pub open spec fn unknown_for_all(
    known: Set<usize>,
    own: Seq<Listing>,
    previous: Seq<Listing>,
    series: Map<usize, Seq<u64>>,
    articles: Seq<Article>,
    tags: Seq<Tag>,
    n: int,
) -> Seq<usize>
    decreases n,
{
    if n <= 0 {
        Seq::empty()
    } else {
        unknown_for_all(known, own, previous, series, articles, tags, n - 1) + unknown_for(
            known,
            own[n - 1],
            previous,
            series,
            articles,
            tags,
        )
    }
}

/// What the pricing policy decided in a tick.
#[derive(Debug, Clone, PartialEq, Eq)]
pub struct Repriced {
    /// For each listing, in the order given, what becomes of it.
    pub decisions: Vec<Repricing>,
    /// The tags whose level should have changed with a listing but is not
    /// known, in the order in which the policy came upon them.
    pub unknown_tags: Vec<usize>,
}

/// How many units of a listing sold since the previous tick.
pub fn sold_since(previous: &Vec<Listing>, listing: &Listing) -> (units: Option<usize>)
    ensures
        match units {
            Some(u) => units_sold(previous@, *listing) == Some(u as nat),
            None => units_sold(previous@, *listing) is None,
        },
{
    let mut i: usize = 0;
    while i < previous.len()
        invariant
            i <= previous@.len(),
            forall|k: int| 0 <= k < i ==> !listing_with(listing.id)(#[trigger] previous@[k]),
        decreases previous@.len() - i,
    {
        if previous[i].id == listing.id {
            proof {
                lemma_first_is(previous@, listing_with(listing.id), i as int);
            }
            if previous[i].count > listing.count {
                return Some(previous[i].count - listing.count);
            } else {
                return Some(0);
            }
        }
        i = i + 1;
    }
    proof {
        lemma_first_is_none(previous@, listing_with(listing.id));
    }
    None
}

/// Sets the level of every given tag back to 0. Hands back the tags of
/// which no level is known.
pub fn record_no_sale(
    levels: &mut HashMap<usize, usize>,
    tags: &Vec<(usize, Vec<usize>)>,
) -> (unknown: Vec<usize>)
    ensures
        final(levels)@ == after_no_sale(old(levels)@, plain(tags@), tags@.len() as int),
        final(levels)@.dom() == old(levels)@.dom(),
        unknown@ == unknown_at_no_sale(old(levels)@.dom(), plain(tags@), tags@.len() as int),
{
    let mut unknown: Vec<usize> = Vec::new();
    let mut j: usize = 0;
    while j < tags.len()
        invariant
            j <= tags@.len(),
            levels@ == after_no_sale(old(levels)@, plain(tags@), j as int),
            levels@.dom() == old(levels)@.dom(),
            unknown@ == unknown_at_no_sale(old(levels)@.dom(), plain(tags@), j as int),
        decreases tags@.len() - j,
    {
        if !reset(levels, tags[j].0) {
            unknown.push(tags[j].0);
        }
        j = j + 1;
    }
    unknown
}

/// Raises the levels for a sale of an article with the given tags. Hands
/// back the tags of which no level is known.
pub fn record_sale(
    levels: &mut HashMap<usize, usize>,
    tags: &Vec<(usize, Vec<usize>)>,
) -> (unknown: Vec<usize>)
    ensures
        final(levels)@ == after_sale(old(levels)@, plain(tags@), tags@.len() as int),
        final(levels)@.dom() == old(levels)@.dom(),
        unknown@ == unknown_at_sale(old(levels)@.dom(), plain(tags@), tags@.len() as int),
{
    let mut unknown: Vec<usize> = Vec::new();
    let mut j: usize = 0;
    while j < tags.len()
        invariant
            j <= tags@.len(),
            levels@ == after_sale(old(levels)@, plain(tags@), j as int),
            levels@.dom() == old(levels)@.dom(),
            unknown@ == unknown_at_sale(old(levels)@.dom(), plain(tags@), j as int),
        decreases tags@.len() - j,
    {
        if !bump(levels, tags[j].0, TAG_LEVEL_INCREASE) {
            unknown.push(tags[j].0);
        }
        let similar: &Vec<usize> = &tags[j].1;
        let ghost direct = levels@;
        let ghost reported = unknown@;
        let mut k: usize = 0;
        while k < similar.len()
            invariant
                k <= similar@.len(),
                levels@ == bumped_each(
                    direct,
                    similar@,
                    SIMILAR_TAG_LEVEL_INCREASE as nat,
                    k as int,
                ),
                levels@.dom() == old(levels)@.dom(),
                unknown@ == reported + unknown_among(old(levels)@.dom(), similar@, k as int),
            decreases similar@.len() - k,
        {
            if !bump(levels, similar[k], SIMILAR_TAG_LEVEL_INCREASE) {
                unknown.push(similar[k]);
            }
            k = k + 1;
        }
        j = j + 1;
    }
    unknown
}

impl Client {
    /// Applies the pricing policy to the trader's listings, one after the
    /// other: says for each what becomes of it, and moves the trend levels
    /// with the sales. `previous` holds the trader's listings of a tick ago.
    /// A tag without a known level keeps none; it is handed back instead.
    pub fn reprice_listings(
        &mut self,
        own: &Vec<Listing>,
        previous: &Vec<Listing>,
        elapsed_secs: u64,
    ) -> (outcome: Repriced)
        ensures
            outcome.decisions@.len() == own@.len(),
            forall|i: int|
                0 <= i < own@.len() ==> #[trigger] outcome.decisions@[i] == repriced(
                    own@[i],
                    previous@,
                    series(old(self).article_price_history@),
                    floor_lifted(elapsed_secs),
                ),
            outcome.unknown_tags@ == unknown_for_all(
                old(self).tag_trend_levels@.dom(),
                own@,
                previous@,
                series(old(self).article_price_history@),
                old(self).articles@,
                old(self).tags@,
                own@.len() as int,
            ),
            final(self).tag_trend_levels@ == levels_after_all(
                old(self).tag_trend_levels@,
                own@,
                previous@,
                series(old(self).article_price_history@),
                old(self).articles@,
                old(self).tags@,
                own@.len() as int,
            ),
            final(self).tag_trend_levels@.dom() == old(self).tag_trend_levels@.dom(),
            final(self).player == old(self).player,
            final(self).articles == old(self).articles,
            final(self).article_price_history == old(self).article_price_history,
            final(self).tags == old(self).tags,
            final(self).suppliers == old(self).suppliers,
            final(self).listings == old(self).listings,
            final(self).bedazzlement_listings == old(self).bedazzlement_listings,
    {
        let lifted: bool = is_floor_lifted(elapsed_secs);
        let mut decisions: Vec<Repricing> = Vec::new();
        let mut unknown_tags: Vec<usize> = Vec::new();
        let mut i: usize = 0;
        while i < own.len()
            invariant
                i <= own@.len(),
                lifted == floor_lifted(elapsed_secs),
                decisions@.len() == i,
                forall|k: int|
                    0 <= k < i ==> #[trigger] decisions@[k] == repriced(
                        own@[k],
                        previous@,
                        series(old(self).article_price_history@),
                        lifted,
                    ),
                unknown_tags@ == unknown_for_all(
                    old(self).tag_trend_levels@.dom(),
                    own@,
                    previous@,
                    series(old(self).article_price_history@),
                    old(self).articles@,
                    old(self).tags@,
                    i as int,
                ),
                self.tag_trend_levels@ == levels_after_all(
                    old(self).tag_trend_levels@,
                    own@,
                    previous@,
                    series(old(self).article_price_history@),
                    old(self).articles@,
                    old(self).tags@,
                    i as int,
                ),
                self.tag_trend_levels@.dom() == old(self).tag_trend_levels@.dom(),
                self.player == old(self).player,
                self.articles == old(self).articles,
                self.article_price_history == old(self).article_price_history,
                self.tags == old(self).tags,
                self.suppliers == old(self).suppliers,
                self.listings == old(self).listings,
                self.bedazzlement_listings == old(self).bedazzlement_listings,
            decreases own@.len() - i,
        {
            let listing: Listing = own[i];
            let decision: Repricing = match sold_since(previous, &listing) {
                Some(units) => {
                    match average_of(&self.article_price_history, listing.article) {
                        Some(average) => {
                            let pairs = self.get_tags_for_article_id(listing.article);
                            assert(plain(pairs@) =~= related(
                                self.articles@,
                                self.tags@,
                                listing.article,
                            ));
                            if units == 0 {
                                let mut unknown = record_no_sale(
                                    &mut self.tag_trend_levels,
                                    &pairs,
                                );
                                unknown_tags.append(&mut unknown);
                                Repricing::Update(
                                    ListingUpdate {
                                        listing_id: listing.id,
                                        count: listing.count as u128,
                                        price: floored_reduce(listing.price, average, lifted),
                                    },
                                )
                            } else {
                                let mut unknown = record_sale(&mut self.tag_trend_levels, &pairs);
                                unknown_tags.append(&mut unknown);
                                Repricing::Update(
                                    ListingUpdate {
                                        listing_id: listing.id,
                                        count: listing.count as u128,
                                        price: increase_price(listing.price),
                                    },
                                )
                            }
                        },
                        None => Repricing::NoPriceHistory {
                            listing_id: listing.id,
                            article_id: listing.article,
                        },
                    }
                },
                None => Repricing::NoPreviousListing { listing_id: listing.id },
            };
            decisions.push(decision);
            i = i + 1;
        }
        Repriced { decisions, unknown_tags }
    }
}

/// How often `tag_id` is among the first `n` of the given tags.
pub open spec fn occurrences(tags: Seq<usize>, tag_id: usize, n: int) -> nat
    decreases n,
{
    if n <= 0 {
        0
    } else if tags[n - 1] == tag_id {
        occurrences(tags, tag_id, n - 1) + 1
    } else {
        occurrences(tags, tag_id, n - 1)
    }
}

/// What a sale of an article adds to the level of `tag_id`, seen up to the
/// article's `n`th tag: the tag increase for each time that the article
/// carries the tag, and the similar-tag increase for each time that a tag of
/// the article names it as similar.
pub open spec fn gain(tags: Seq<(usize, Seq<usize>)>, tag_id: usize, n: int) -> nat
    decreases n,
{
    if n <= 0 {
        0
    } else {
        gain(tags, tag_id, n - 1) + (if tags[n - 1].0 == tag_id {
            TAG_LEVEL_INCREASE as nat
        } else {
            0
        }) + SIMILAR_TAG_LEVEL_INCREASE as nat * occurrences(
            tags[n - 1].1,
            tag_id,
            tags[n - 1].1.len() as int,
        )
    }
}

/// Whether `tag_id` is one of the first `n` of an article's tags.
pub open spec fn carries(tags: Seq<(usize, Seq<usize>)>, tag_id: usize, n: int) -> bool {
    exists|j: int| 0 <= j < n && (#[trigger] tags[j]).0 == tag_id
}

/// Raising each of some tags by an amount raises the level of a known tag by
/// the amount for each time that it is among them, and knows the same tags
/// after as before.
pub proof fn lemma_bumped_each(
    levels: Map<usize, usize>,
    tags: Seq<usize>,
    amount: nat,
    n: int,
    tag_id: usize,
)
    requires
        0 <= n <= tags.len(),
    ensures
        bumped_each(levels, tags, amount, n).dom() == levels.dom(),
        levels.contains_key(tag_id) ==> bumped_each(levels, tags, amount, n)[tag_id] == held(
            levels[tag_id] + amount * occurrences(tags, tag_id, n),
        ),
    decreases n,
{
    if n > 0 {
        lemma_bumped_each(levels, tags, amount, n - 1, tag_id);
        lemma_bumped_each(levels, tags, amount, n - 1, tags[n - 1]);
        let before = bumped_each(levels, tags, amount, n - 1);
        if levels.contains_key(tag_id) && tags[n - 1] == tag_id {
            assert(amount * (occurrences(tags, tag_id, n - 1) + 1) == amount * occurrences(
                tags,
                tag_id,
                n - 1,
            ) + amount) by (nonlinear_arith);
            assert(amount * occurrences(tags, tag_id, n - 1) >= 0) by (nonlinear_arith);
        }
    } else {
        assert(amount * 0 == 0) by (nonlinear_arith);
    }
}

/// What a sale does to the levels: the level of every known tag rises by
/// what the sale adds to it, up to the largest level the counter holds. A
/// tag that is both a tag of the article and similar to one of its tags
/// gains both increases. No tag becomes known by a sale.
pub proof fn lemma_sale_raises_levels(
    levels: Map<usize, usize>,
    tags: Seq<(usize, Seq<usize>)>,
    n: int,
    tag_id: usize,
)
    requires
        0 <= n <= tags.len(),
    ensures
        after_sale(levels, tags, n).dom() == levels.dom(),
        level_of(after_sale(levels, tags, n), tag_id) == if levels.contains_key(tag_id) {
            held((level_of(levels, tag_id) + gain(tags, tag_id, n)) as int) as nat
        } else {
            0
        },
    decreases n,
{
    if n > 0 {
        lemma_sale_raises_levels(levels, tags, n - 1, tag_id);
        let before = after_sale(levels, tags, n - 1);
        let direct = bumped(before, tags[n - 1].0, TAG_LEVEL_INCREASE as nat);
        let similar = tags[n - 1].1;
        lemma_bumped_each(
            direct,
            similar,
            SIMILAR_TAG_LEVEL_INCREASE as nat,
            similar.len() as int,
            tag_id,
        );
        assert(SIMILAR_TAG_LEVEL_INCREASE as nat * occurrences(
            similar,
            tag_id,
            similar.len() as int,
        ) >= 0) by (nonlinear_arith);
    }
}

/// What it does to the levels that an article did not sell: the level of
/// each of its tags is 0 after it, every other level is as before. No tag
/// becomes known by it.
pub proof fn lemma_no_sale_resets_levels(
    levels: Map<usize, usize>,
    tags: Seq<(usize, Seq<usize>)>,
    n: int,
    tag_id: usize,
)
    requires
        0 <= n <= tags.len(),
    ensures
        after_no_sale(levels, tags, n).dom() == levels.dom(),
        level_of(after_no_sale(levels, tags, n), tag_id) == if carries(tags, tag_id, n) {
            0
        } else {
            level_of(levels, tag_id)
        },
    decreases n,
{
    if n > 0 {
        lemma_no_sale_resets_levels(levels, tags, n - 1, tag_id);
    }
}

/// The price of a listing that did not sell: before the floor is lifted it
/// is not below the low selling price of the article; after that it is one
/// reduction step below the old price, which for a price above 0 is less
/// than the old price.
pub proof fn lemma_unsold_listing_price(
    listing: Listing,
    previous: Seq<Listing>,
    series: Map<usize, Seq<u64>>,
    lifted: bool,
)
    requires
        units_sold(previous, listing) == Some(0nat),
        known_average(series, listing.article) is Some,
    ensures
        repriced(listing, previous, series, lifted) matches Repricing::Update(update) && {
            &&& update.listing_id == listing.id
            &&& update.count == listing.count
            &&& !lifted ==> update.price >= low_selling_price(
                known_average(series, listing.article).unwrap(),
            )
            &&& !lifted ==> update.price >= reduced(listing.price as int)
            &&& lifted ==> update.price == reduced(listing.price as int)
            &&& lifted && listing.price > 0 ==> update.price < listing.price
        },
{
    let average = known_average(series, listing.article).unwrap();
    lemma_mean_fits(series[listing.article]);
    lemma_prices_fit(listing.price as int, average);
}

/// The price of a listing that sold is one increase step above the old
/// price, whatever the time and the average price of the article.
pub proof fn lemma_sold_listing_price(
    listing: Listing,
    previous: Seq<Listing>,
    series: Map<usize, Seq<u64>>,
    lifted: bool,
)
    requires
        units_sold(previous, listing) matches Some(units) && units > 0,
        known_average(series, listing.article) is Some,
    ensures
        repriced(listing, previous, series, lifted) == Repricing::Update(
            ListingUpdate {
                listing_id: listing.id,
                count: listing.count as u128,
                price: increased(listing.price as int) as i128,
            },
        ),
        increased(listing.price as int) as i128 == increased(listing.price as int),
        listing.price > 0 ==> increased(listing.price as int) >= listing.price,
{
    lemma_prices_fit(listing.price as int, 0);
}

} // verus!
