//! Finding the first item of a sequence that meets a condition.

use vstd::prelude::*;

verus! {

/// The position of the first item at or after `from` that meets `wanted`.
pub open spec fn first_from<T>(items: Seq<T>, wanted: spec_fn(T) -> bool, from: int) -> Option<int>
    decreases items.len() - from,
{
    if from < 0 || from >= items.len() {
        None
    } else if wanted(items[from]) {
        Some(from)
    } else {
        first_from(items, wanted, from + 1)
    }
}

/// The position of the first item that meets `wanted`.
pub open spec fn first<T>(items: Seq<T>, wanted: spec_fn(T) -> bool) -> Option<int> {
    first_from(items, wanted, 0)
}

/// What `first_from` finds is in range, meets the condition, and nothing
/// between `from` and it does; it finds nothing only where nothing meets the
/// condition.
pub proof fn lemma_first_from<T>(items: Seq<T>, wanted: spec_fn(T) -> bool, from: int)
    requires
        0 <= from <= items.len(),
    ensures
        match first_from(items, wanted, from) {
            Some(i) => from <= i < items.len() && wanted(items[i]) && forall|j: int|
                from <= j < i ==> !wanted(#[trigger] items[j]),
            None => forall|j: int| from <= j < items.len() ==> !wanted(#[trigger] items[j]),
        },
    decreases items.len() - from,
{
    if from < items.len() && !wanted(items[from]) {
        lemma_first_from(items, wanted, from + 1);
    }
}

/// The first item at or after `from` that meets the condition is the one
/// before which, from `from` on, none does.
pub proof fn lemma_first_from_is<T>(
    items: Seq<T>,
    wanted: spec_fn(T) -> bool,
    from: int,
    i: int,
)
    requires
        0 <= from <= i < items.len(),
        wanted(items[i]),
        forall|j: int| from <= j < i ==> !wanted(#[trigger] items[j]),
    ensures
        first_from(items, wanted, from) == Some(i),
{
    lemma_first_from(items, wanted, from);
}

/// Nothing is found from `from` on where no item there meets the condition.
pub proof fn lemma_first_from_is_none<T>(items: Seq<T>, wanted: spec_fn(T) -> bool, from: int)
    requires
        0 <= from,
        forall|j: int| from <= j < items.len() ==> !wanted(#[trigger] items[j]),
    ensures
        first_from(items, wanted, from) is None,
{
    if from <= items.len() {
        lemma_first_from(items, wanted, from);
    }
}

/// The first item that meets the condition is the one before which none
/// does.
pub proof fn lemma_first_is<T>(items: Seq<T>, wanted: spec_fn(T) -> bool, i: int)
    requires
        0 <= i < items.len(),
        wanted(items[i]),
        forall|j: int| 0 <= j < i ==> !wanted(#[trigger] items[j]),
    ensures
        first(items, wanted) == Some(i),
{
    lemma_first_from(items, wanted, 0);
}

/// Nothing is found where no item meets the condition.
pub proof fn lemma_first_is_none<T>(items: Seq<T>, wanted: spec_fn(T) -> bool)
    requires
        forall|j: int| 0 <= j < items.len() ==> !wanted(#[trigger] items[j]),
    ensures
        first(items, wanted) is None,
{
    lemma_first_from(items, wanted, 0);
}

/// An item is among the first `n + 1` items of a sequence exactly if it is
/// among the first `n` or is the one after them.
pub proof fn lemma_contains_one_more<T>(items: Seq<T>, n: int, item: T)
    requires
        0 <= n < items.len(),
    ensures
        items.take(n + 1).contains(item) <==> items.take(n).contains(item) || items[n] == item,
{
    if items[n] == item {
        assert(items.take(n + 1)[n] == item);
    }
}

} // verus!
