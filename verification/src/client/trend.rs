//! Trend levels: how much recent sales speak for each tag.

use std::collections::HashMap;
use vstd::prelude::*;
use crate::client::types::Tag;

verus! {

/// What a sale adds to the level of each tag of the sold article.
pub const TAG_LEVEL_INCREASE: usize = 4;

/// What a sale adds to the level of each tag similar to a tag of the sold
/// article.
pub const SIMILAR_TAG_LEVEL_INCREASE: usize = 1;

/// A tag drives purchases once its level exceeds this.
pub const TAG_LEVEL_BUY_THRESHOLD: usize = 0;

/// The level of a tag: 0 for a tag that was never observed.
pub open spec fn level_of(levels: Map<usize, usize>, tag_id: usize) -> nat {
    if levels.contains_key(tag_id) {
        levels[tag_id] as nat
    } else {
        0
    }
}

/// A level as the counter holds it: the counter stops at its largest value.
pub open spec fn held(level: int) -> usize {
    if level >= usize::MAX {
        usize::MAX
    } else if level <= 0 {
        0
    } else {
        level as usize
    }
}

/// The levels after the level of `tag_id` was raised by `amount`; a tag that
/// was never observed stays unobserved.
pub open spec fn bumped(levels: Map<usize, usize>, tag_id: usize, amount: nat) -> Map<
    usize,
    usize,
> {
    if levels.contains_key(tag_id) {
        levels.insert(tag_id, held(levels[tag_id] + amount))
    } else {
        levels
    }
}

/// The levels after the level of `tag_id` was set back to 0; a tag that was
/// never observed stays unobserved.
pub open spec fn zeroed(levels: Map<usize, usize>, tag_id: usize) -> Map<usize, usize> {
    if levels.contains_key(tag_id) {
        levels.insert(tag_id, 0)
    } else {
        levels
    }
}

/// The levels after the first `n` tags of a catalog were observed: a tag seen
/// for the first time starts at 0, every other level stays.
pub open spec fn observed(levels: Map<usize, usize>, tags: Seq<Tag>, n: int) -> Map<usize, usize>
    decreases n,
{
    if n <= 0 {
        levels
    } else {
        let before = observed(levels, tags, n - 1);
        if before.contains_key(tags[n - 1].id) {
            before
        } else {
            before.insert(tags[n - 1].id, 0)
        }
    }
}

/// The current level of a tag.
pub fn level(levels: &HashMap<usize, usize>, tag_id: usize) -> (l: usize)
    ensures
        l == level_of(levels@, tag_id),
{
    match levels.get(&tag_id) {
        Some(l) => *l,
        None => 0,
    }
}

/// Raises the level of a tag by `amount`. Says whether the tag is known; the
/// level of an unknown tag cannot be raised.
pub fn bump(levels: &mut HashMap<usize, usize>, tag_id: usize, amount: usize) -> (known: bool)
    ensures
        known == old(levels)@.contains_key(tag_id),
        final(levels)@ == bumped(old(levels)@, tag_id, amount as nat),
{
    let current: Option<usize> = match levels.get(&tag_id) {
        Some(l) => Some(*l),
        None => None,
    };
    match current {
        Some(l) => {
            let raised: usize = if l > usize::MAX - amount {
                usize::MAX
            } else {
                l + amount
            };
            levels.insert(tag_id, raised);
            true
        },
        None => false,
    }
}

/// Sets the level of a tag back to 0. Says whether the tag is known.
pub fn reset(levels: &mut HashMap<usize, usize>, tag_id: usize) -> (known: bool)
    ensures
        known == old(levels)@.contains_key(tag_id),
        final(levels)@ == zeroed(old(levels)@, tag_id),
{
    if levels.contains_key(&tag_id) {
        levels.insert(tag_id, 0);
        true
    } else {
        false
    }
}

/// Takes note of a tag catalog: every tag in it that is not yet known starts
/// at level 0.
pub fn observe(levels: &mut HashMap<usize, usize>, tags: &Vec<Tag>)
    ensures
        final(levels)@ == observed(old(levels)@, tags@, tags@.len() as int),
{
    let mut i: usize = 0;
    while i < tags.len()
        invariant
            i <= tags@.len(),
            levels@ == observed(old(levels)@, tags@, i as int),
        decreases tags@.len() - i,
    {
        if !levels.contains_key(&tags[i].id) {
            levels.insert(tags[i].id, 0);
        }
        i = i + 1;
    }
}

/// A tag that was never observed has level 0.
pub proof fn lemma_unobserved_level_is_zero(levels: Map<usize, usize>, tag_id: usize)
    requires
        !levels.contains_key(tag_id),
    ensures
        level_of(levels, tag_id) == 0,
{
}

/// After a reset the level of the tag is 0, whatever it was.
pub proof fn lemma_reset_yields_zero(levels: Map<usize, usize>, tag_id: usize)
    ensures
        level_of(zeroed(levels, tag_id), tag_id) == 0,
        forall|other: usize| other != tag_id ==> level_of(zeroed(levels, tag_id), other)
            == level_of(levels, other),
{
}

/// A bump adds its amount to the level of a known tag, up to the largest
/// level the counter holds, and touches no other tag.
pub proof fn lemma_bump_adds(levels: Map<usize, usize>, tag_id: usize, amount: nat)
    ensures
        levels.contains_key(tag_id) && level_of(levels, tag_id) + amount <= usize::MAX ==> level_of(
            bumped(levels, tag_id, amount),
            tag_id,
        ) == level_of(levels, tag_id) + amount,
        levels.contains_key(tag_id) ==> level_of(bumped(levels, tag_id, amount), tag_id) == held(
            (level_of(levels, tag_id) + amount) as int,
        ),
        forall|other: usize| other != tag_id ==> level_of(bumped(levels, tag_id, amount), other)
            == level_of(levels, other),
        bumped(levels, tag_id, amount).dom() == levels.dom(),
{
}

/// Bumps add up: two bumps of one tag in a row are one bump by the sum of
/// their amounts.
pub proof fn lemma_bumps_add_up(levels: Map<usize, usize>, tag_id: usize, first: nat, second: nat)
    ensures
        bumped(bumped(levels, tag_id, first), tag_id, second) == bumped(
            levels,
            tag_id,
            first + second,
        ),
{
}

/// Bumps of different tags do not disturb each other: their order does not
/// matter.
pub proof fn lemma_bumps_commute(
    levels: Map<usize, usize>,
    one: usize,
    amount_one: nat,
    other: usize,
    amount_other: nat,
)
    ensures
        bumped(bumped(levels, one, amount_one), other, amount_other) == bumped(
            bumped(levels, other, amount_other),
            one,
            amount_one,
        ),
{
    if one == other {
        lemma_bumps_add_up(levels, one, amount_one, amount_other);
        lemma_bumps_add_up(levels, one, amount_other, amount_one);
    }
}

/// Observing a catalog keeps every level that was known and knows, after it,
/// exactly the tags known before and the tags of the catalog.
pub proof fn lemma_observed_keeps_levels(levels: Map<usize, usize>, tags: Seq<Tag>, n: int)
    requires
        0 <= n <= tags.len(),
    ensures
        forall|tag_id: usize|
            levels.contains_key(tag_id) ==> #[trigger] observed(levels, tags, n).contains_key(
                tag_id,
            ) && observed(levels, tags, n)[tag_id] == levels[tag_id],
        forall|tag_id: usize|
            level_of(observed(levels, tags, n), tag_id) == #[trigger] level_of(levels, tag_id),
        forall|tag_id: usize| #[trigger]
            observed(levels, tags, n).contains_key(tag_id) <==> levels.contains_key(tag_id) || (
            exists|i: int| 0 <= i < n && #[trigger] tags[i].id == tag_id),
    decreases n,
{
    if n > 0 {
        lemma_observed_keeps_levels(levels, tags, n - 1);
        let before = observed(levels, tags, n - 1);
        let after = observed(levels, tags, n);
        assert forall|tag_id: usize| #[trigger]
            after.contains_key(tag_id) <==> levels.contains_key(tag_id) || (exists|i: int|
                0 <= i < n && #[trigger] tags[i].id == tag_id) by {
            if after.contains_key(tag_id) && !levels.contains_key(tag_id) {
                if before.contains_key(tag_id) {
                    let i = choose|i: int| 0 <= i < n - 1 && #[trigger] tags[i].id == tag_id;
                    assert(0 <= i < n && tags[i].id == tag_id);
                } else {
                    assert(tags[n - 1].id == tag_id);
                }
            }
            if exists|i: int| 0 <= i < n && #[trigger] tags[i].id == tag_id {
                let i = choose|i: int| 0 <= i < n && #[trigger] tags[i].id == tag_id;
                if i < n - 1 {
                    assert(before.contains_key(tag_id));
                }
            }
        }
    }
}

} // verus!
