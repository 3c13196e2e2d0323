//! What the trader would like to buy: how many units of which article, and in
//! which order the wishes are served.

use std::collections::HashMap;
use vstd::prelude::*;
use vstd::seq_lib::{to_multiset_build, to_multiset_insert};
use crate::client::trend::{level, level_of, TAG_LEVEL_BUY_THRESHOLD};
use crate::client::types::{Article, Listing, PlayerStock};
use crate::find::lemma_contains_one_more;
use crate::game::schedule::{buys_by_trend, buys_missing, is_buying_by_trend, is_buying_missing};

verus! {

/// The wish to buy `count` units of an article.
#[derive(Debug, Clone, Copy, PartialEq, Eq, Structural)]
pub struct Order {
    pub article_id: usize,
    pub count: u128,
}

/// Whether the tag at position `j` of an article's tags adds its level to
/// the demand for the article: it does where its level exceeds the buy
/// threshold, and only once however often the article lists it.
pub open spec fn drives_demand(tags: Seq<usize>, levels: Map<usize, usize>, j: int) -> bool {
    !tags.take(j).contains(tags[j]) && level_of(levels, tags[j]) > TAG_LEVEL_BUY_THRESHOLD
}

/// The demand that the first `n` tags of an article cause: the sum of the
/// levels of those that drive demand.
pub open spec fn trend_demand(tags: Seq<usize>, levels: Map<usize, usize>, n: int) -> nat
    decreases n,
{
    if n <= 0 {
        0
    } else if drives_demand(tags, levels, n - 1) {
        trend_demand(tags, levels, n - 1) + level_of(levels, tags[n - 1])
    } else {
        trend_demand(tags, levels, n - 1)
    }
}

/// Whether the player holds at least one unit of an article.
pub open spec fn holds(stock: Seq<PlayerStock>, article_id: usize) -> bool {
    exists|i: int| 0 <= i < stock.len() && holds_at(stock, article_id, i)
}

/// Whether position `i` of the player's stock holds units of an article.
pub open spec fn holds_at(stock: Seq<PlayerStock>, article_id: usize, i: int) -> bool {
    stock[i].article_id == article_id && stock[i].stock > 0
}

/// Whether one of the trader's listings offers at least one unit of an
/// article.
pub open spec fn offers(own: Seq<Listing>, article_id: usize) -> bool {
    exists|i: int| 0 <= i < own.len() && offers_at(own, article_id, i)
}

/// Whether listing `i` offers units of an article.
pub open spec fn offers_at(own: Seq<Listing>, article_id: usize, i: int) -> bool {
    own[i].article == article_id && own[i].count > 0
}

/// How many units of an article the trader wants to buy. While trends count,
/// it wants what the trend levels of the article's tags add up to. While it
/// stocks up, it wants at least one unit of an article that it neither holds
/// nor offers.
pub open spec fn wanted(
    article: Article,
    levels: Map<usize, usize>,
    stock: Seq<PlayerStock>,
    own: Seq<Listing>,
    by_trend: bool,
    missing: bool,
) -> nat {
    let trend = if by_trend {
        trend_demand(article.tags@, levels, article.tags@.len() as int)
    } else {
        0
    };
    if trend == 0 && missing && !holds(stock, article.id) && !offers(own, article.id) {
        1
    } else {
        trend
    }
}

/// The orders for the first `n` articles of the catalog: one for each article
/// that the trader wants units of, in the order of the catalog.
pub open spec fn desired(
    articles: Seq<Article>,
    levels: Map<usize, usize>,
    stock: Seq<PlayerStock>,
    own: Seq<Listing>,
    by_trend: bool,
    missing: bool,
    n: int,
) -> Seq<Order>
    decreases n,
{
    if n <= 0 {
        Seq::empty()
    } else {
        let before = desired(articles, levels, stock, own, by_trend, missing, n - 1);
        let count = wanted(articles[n - 1], levels, stock, own, by_trend, missing);
        if count > 0 {
            before.push(Order { article_id: articles[n - 1].id, count: count as u128 })
        } else {
            before
        }
    }
}

/// Whether no order comes before one with a larger count.
pub open spec fn descending(orders: Seq<Order>) -> bool {
    forall|i: int, j: int| 0 <= i < j < orders.len() ==> orders[i].count >= orders[j].count
}

/// The demand of `n` tags is at most `n` times the largest level.
pub proof fn lemma_trend_demand_bound(tags: Seq<usize>, levels: Map<usize, usize>, n: int)
    requires
        0 <= n,
    ensures
        trend_demand(tags, levels, n) <= n * usize::MAX,
    decreases n,
{
    if n > 0 {
        lemma_trend_demand_bound(tags, levels, n - 1);
        assert((n - 1) * usize::MAX + usize::MAX == n * usize::MAX) by (nonlinear_arith);
    }
}

/// The demand that trend levels cause for an article with the given tags.
pub fn demand_by_trend(tags: &Vec<usize>, levels: &HashMap<usize, usize>) -> (demand: u128)
    ensures
        demand == trend_demand(tags@, levels@, tags@.len() as int),
{
    let mut demand: u128 = 0;
    let mut j: usize = 0;
    while j < tags.len()
        invariant
            j <= tags@.len(),
            demand == trend_demand(tags@, levels@, j as int),
        decreases tags@.len() - j,
    {
        let tag_id: usize = tags[j];
        let mut seen: bool = false;
        let mut k: usize = 0;
        while k < j
            invariant
                k <= j,
                j < tags@.len(),
                tag_id == tags@[j as int],
                seen == tags@.take(k as int).contains(tag_id),
            decreases j - k,
        {
            proof {
                lemma_contains_one_more(tags@, k as int, tag_id);
            }
            if tags[k] == tag_id {
                seen = true;
            }
            k = k + 1;
        }
        let l: usize = level(levels, tag_id);
        if !seen && l > TAG_LEVEL_BUY_THRESHOLD {
            proof {
                lemma_trend_demand_bound(tags@, levels@, j as int);
                assert(j * usize::MAX + usize::MAX <= 0xFFFF_FFFF_FFFF_FFFF * 0xFFFF_FFFF_FFFF_FFFF
                    + 0xFFFF_FFFF_FFFF_FFFF) by (nonlinear_arith)
                    requires
                        0 <= j <= 0xFFFF_FFFF_FFFF_FFFF,
                        0 <= usize::MAX <= 0xFFFF_FFFF_FFFF_FFFF,
                ;
            }
            demand = demand + l as u128;
        }
        j = j + 1;
    }
    demand
}

/// Whether the player holds at least one unit of an article.
pub fn holds_article(stock: &Vec<PlayerStock>, article_id: usize) -> (found: bool)
    ensures
        found == holds(stock@, article_id),
{
    let mut i: usize = 0;
    while i < stock.len()
        invariant
            i <= stock@.len(),
            forall|k: int| 0 <= k < i ==> !holds_at(stock@, article_id, k),
        decreases stock@.len() - i,
    {
        if stock[i].article_id == article_id && stock[i].stock > 0 {
            assert(holds_at(stock@, article_id, i as int));
            return true;
        }
        i = i + 1;
    }
    false
}

/// Whether one of the trader's listings offers at least one unit of an
/// article.
pub fn offers_article(own: &Vec<Listing>, article_id: usize) -> (found: bool)
    ensures
        found == offers(own@, article_id),
{
    let mut i: usize = 0;
    while i < own.len()
        invariant
            i <= own@.len(),
            forall|k: int| 0 <= k < i ==> !offers_at(own@, article_id, k),
        decreases own@.len() - i,
    {
        if own[i].article == article_id && own[i].count > 0 {
            assert(offers_at(own@, article_id, i as int));
            return true;
        }
        i = i + 1;
    }
    false
}

/// The orders of this tick, in the order of the catalog: for each article
/// what the trend levels of its tags call for, and one unit of each article
/// that is neither held nor offered. Each of the two reasons to buy ends at
/// its own time after the start.
pub fn desired_purchases(
    articles: &Vec<Article>,
    levels: &HashMap<usize, usize>,
    stock: &Vec<PlayerStock>,
    own: &Vec<Listing>,
    elapsed_secs: u64,
) -> (orders: Vec<Order>)
    ensures
        orders@ == desired(
            articles@,
            levels@,
            stock@,
            own@,
            buys_by_trend(elapsed_secs),
            buys_missing(elapsed_secs),
            articles@.len() as int,
        ),
{
    let by_trend: bool = is_buying_by_trend(elapsed_secs);
    let missing: bool = is_buying_missing(elapsed_secs);
    let mut orders: Vec<Order> = Vec::new();
    let mut i: usize = 0;
    while i < articles.len()
        invariant
            i <= articles@.len(),
            orders@ == desired(articles@, levels@, stock@, own@, by_trend, missing, i as int),
        decreases articles@.len() - i,
    {
        let article: &Article = &articles[i];
        let trend: u128 = if by_trend {
            demand_by_trend(&article.tags, levels)
        } else {
            0
        };
        let count: u128 = if trend == 0 && missing && !holds_article(stock, article.id)
            && !offers_article(own, article.id) {
            1
        } else {
            trend
        };
        if count > 0 {
            orders.push(Order { article_id: article.id, count });
        }
        i = i + 1;
    }
    orders
}

/// The same orders, those with the larger counts first.
pub fn by_descending_count(orders: &Vec<Order>) -> (sorted: Vec<Order>)
    ensures
        descending(sorted@),
        sorted@.to_multiset() == orders@.to_multiset(),
{
    let mut sorted: Vec<Order> = Vec::new();
    let mut i: usize = 0;
    assert(sorted@ =~= orders@.take(0));
    while i < orders.len()
        invariant
            i <= orders@.len(),
            descending(sorted@),
            sorted@.len() == i,
            sorted@.to_multiset() == orders@.take(i as int).to_multiset(),
        decreases orders@.len() - i,
    {
        let order: Order = orders[i];
        let mut at: usize = 0;
        while at < sorted.len() && sorted[at].count >= order.count
            invariant
                at <= sorted@.len(),
                forall|k: int| 0 <= k < at ==> sorted@[k].count >= order.count,
            decreases sorted@.len() - at,
        {
            at = at + 1;
        }
        proof {
            to_multiset_insert(sorted@, at as int, order);
            to_multiset_build(orders@.take(i as int), order);
            assert(orders@.take(i as int).push(order) =~= orders@.take(i as int + 1));
        }
        sorted.insert(at, order);
        i = i + 1;
    }
    assert(orders@.take(orders@.len() as int) =~= orders@);
    sorted
}

} // verus!
