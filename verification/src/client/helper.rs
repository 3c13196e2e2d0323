//! Questions that the rules ask of the local picture.

use vstd::prelude::*;
use crate::client::types::{Article, Listing, Tag};
use crate::client::Client;
use crate::find::{first, lemma_first_is, lemma_first_is_none};

verus! {

/// The articles with a given identifier.
pub open spec fn article_with(article_id: usize) -> spec_fn(Article) -> bool {
    |article: Article| article.id == article_id
}

/// The tags with a given identifier.
pub open spec fn tag_with(tag_id: usize) -> spec_fn(Tag) -> bool {
    |tag: Tag| tag.id == tag_id
}

/// The tags that the catalog gives an article: those of its first entry, none
/// for an article that the catalog does not hold.
pub open spec fn tags_of(articles: Seq<Article>, article_id: usize) -> Seq<usize> {
    match first(articles, article_with(article_id)) {
        Some(i) => articles[i].tags@,
        None => Seq::empty(),
    }
}

/// The tags similar to a tag: those of its first entry in the tag catalog,
/// none for a tag that the catalog does not hold.
pub open spec fn similar_to(tags: Seq<Tag>, tag_id: usize) -> Seq<usize> {
    match first(tags, tag_with(tag_id)) {
        Some(i) => tags[i].similar_tags@,
        None => Seq::empty(),
    }
}

/// The listings that belong to `player` and were not made to mislead.
pub open spec fn own_listing(player: usize, bedazzlements: Seq<usize>) -> spec_fn(Listing) -> bool {
    |listing: Listing| listing.player == player && !bedazzlements.contains(listing.id)
}

/// The listings with something to sell that belong to another player and
/// were not made to mislead.
pub open spec fn other_listing(player: usize, bedazzlements: Seq<usize>) -> spec_fn(
    Listing,
) -> bool {
    |listing: Listing|
        listing.player != player && listing.count > 0 && !bedazzlements.contains(listing.id)
}

/// Whether `id` is among `ids`.
pub fn contains_id(ids: &Vec<usize>, id: usize) -> (found: bool)
    ensures
        found == ids@.contains(id),
{
    let mut i: usize = 0;
    while i < ids.len()
        invariant
            i <= ids@.len(),
            forall|j: int| 0 <= j < i ==> ids@[j] != id,
        decreases ids@.len() - i,
    {
        if ids[i] == id {
            return true;
        }
        i = i + 1;
    }
    false
}

/// A copy of a list of identifiers.
pub fn copy_ids(ids: &Vec<usize>) -> (copy: Vec<usize>)
    ensures
        copy@ == ids@,
{
    let mut copy: Vec<usize> = Vec::new();
    let mut i: usize = 0;
    while i < ids.len()
        invariant
            i <= ids@.len(),
            copy@ == ids@.take(i as int),
        decreases ids@.len() - i,
    {
        copy.push(ids[i]);
        i = i + 1;
    }
    copy
}

impl Client {
    /// The tags of an article, each with the tags similar to it, in the order
    /// in which the article lists them.
    pub fn get_tags_for_article_id(&self, article_id: usize) -> (result: Vec<(usize, Vec<usize>)>)
        ensures
            result@.len() == tags_of(self.articles@, article_id).len(),
            forall|j: int|
                0 <= j < result@.len() ==> (#[trigger] result@[j]).0 == tags_of(
                    self.articles@,
                    article_id,
                )[j] && result@[j].1@ == similar_to(self.tags@, result@[j].0),
    {
        let mut result: Vec<(usize, Vec<usize>)> = Vec::new();
        let mut a: usize = 0;
        while a < self.articles.len()
            invariant
                a <= self.articles@.len(),
                forall|k: int|
                    0 <= k < a ==> !article_with(article_id)(#[trigger] self.articles@[k]),
            ensures
                a < self.articles@.len() ==> self.articles@[a as int].id == article_id,
            decreases self.articles@.len() - a,
        {
            if self.articles[a].id == article_id {
                break ;
            }
            a = a + 1;
        }
        if a >= self.articles.len() {
            proof {
                lemma_first_is_none(self.articles@, article_with(article_id));
            }
            return result;
        }
        proof {
            lemma_first_is(self.articles@, article_with(article_id), a as int);
        }
        let article_tags: &Vec<usize> = &self.articles[a].tags;
        let mut j: usize = 0;
        while j < article_tags.len()
            invariant
                j <= article_tags@.len(),
                article_tags@ == tags_of(self.articles@, article_id),
                result@.len() == j,
                forall|k: int|
                    0 <= k < j ==> (#[trigger] result@[k]).0 == article_tags@[k] && result@[k].1@
                        == similar_to(self.tags@, result@[k].0),
            decreases article_tags@.len() - j,
        {
            let tag_id: usize = article_tags[j];
            let mut t: usize = 0;
            while t < self.tags.len()
                invariant
                    t <= self.tags@.len(),
                    forall|k: int| 0 <= k < t ==> !tag_with(tag_id)(#[trigger] self.tags@[k]),
                ensures
                    t < self.tags@.len() ==> self.tags@[t as int].id == tag_id,
                decreases self.tags@.len() - t,
            {
                if self.tags[t].id == tag_id {
                    break ;
                }
                t = t + 1;
            }
            let similar: Vec<usize> = if t < self.tags.len() {
                proof {
                    lemma_first_is(self.tags@, tag_with(tag_id), t as int);
                }
                copy_ids(&self.tags[t].similar_tags)
            } else {
                proof {
                    lemma_first_is_none(self.tags@, tag_with(tag_id));
                }
                Vec::new()
            };
            result.push((tag_id, similar));
            j = j + 1;
        }
        result
    }

    /// The trader's own listings: those of its player that it did not make
    /// or change to mislead competitors.
    pub fn get_own_listings(&self) -> (own: Vec<Listing>)
        ensures
            own@ == self.listings@.filter(
                own_listing(self.player.id, self.bedazzlement_listings@),
            ),
    {
        let ghost wanted = own_listing(self.player.id, self.bedazzlement_listings@);
        let mut own: Vec<Listing> = Vec::new();
        let mut i: usize = 0;
        proof {
            reveal(Seq::filter);
        }
        while i < self.listings.len()
            invariant
                i <= self.listings@.len(),
                wanted == own_listing(self.player.id, self.bedazzlement_listings@),
                own@ == self.listings@.take(i as int).filter(wanted),
            decreases self.listings@.len() - i,
        {
            let listing: Listing = self.listings[i];
            proof {
                reveal(Seq::filter);
                assert(self.listings@.take(i as int + 1).drop_last() =~= self.listings@.take(
                    i as int,
                ));
            }
            if listing.player == self.player.id && !contains_id(
                &self.bedazzlement_listings,
                listing.id,
            ) {
                own.push(listing);
            }
            i = i + 1;
        }
        assert(self.listings@.take(self.listings@.len() as int) =~= self.listings@);
        own
    }

    /// The competitors' listings: those of other players that have something
    /// to sell and that the trader did not make or change to mislead.
    pub fn get_other_listings(&self) -> (others: Vec<Listing>)
        ensures
            others@ == self.listings@.filter(
                other_listing(self.player.id, self.bedazzlement_listings@),
            ),
    {
        let ghost wanted = other_listing(self.player.id, self.bedazzlement_listings@);
        let mut others: Vec<Listing> = Vec::new();
        let mut i: usize = 0;
        proof {
            reveal(Seq::filter);
        }
        while i < self.listings.len()
            invariant
                i <= self.listings@.len(),
                wanted == other_listing(self.player.id, self.bedazzlement_listings@),
                others@ == self.listings@.take(i as int).filter(wanted),
            decreases self.listings@.len() - i,
        {
            let listing: Listing = self.listings[i];
            proof {
                reveal(Seq::filter);
                assert(self.listings@.take(i as int + 1).drop_last() =~= self.listings@.take(
                    i as int,
                ));
            }
            if listing.player != self.player.id && listing.count > 0 && !contains_id(
                &self.bedazzlement_listings,
                listing.id,
            ) {
                others.push(listing);
            }
            i = i + 1;
        }
        assert(self.listings@.take(self.listings@.len() as int) =~= self.listings@);
        others
    }
}

} // verus!
