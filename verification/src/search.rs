//! The first element of a sequence that meets a condition.

use vstd::prelude::*;

verus! {

/// Whether `i` is the least index from `from` on whose element meets `wanted`.
pub open spec fn leads<T>(items: Seq<T>, wanted: spec_fn(T) -> bool, from: int, i: int) -> bool {
    &&& from <= i < items.len()
    &&& wanted(items[i])
    &&& forall|j: int| from <= j < i ==> !wanted(#[trigger] items[j])
}

/// The least index from `from` on whose element meets `wanted`, if there is one.
pub open spec fn first_index<T>(items: Seq<T>, wanted: spec_fn(T) -> bool, from: int) -> Option<
    int,
> {
    if exists|i: int| leads(items, wanted, from, i) {
        Some(choose|i: int| leads(items, wanted, from, i))
    } else {
        None
    }
}

/// An index that leads is the one that `first_index` gives.
pub proof fn lemma_first_index_found<T>(
    items: Seq<T>,
    wanted: spec_fn(T) -> bool,
    from: int,
    i: int,
)
    requires
        leads(items, wanted, from, i),
    ensures
        first_index(items, wanted, from) == Some(i),
{
    let found = choose|k: int| leads(items, wanted, from, k);
    assert(found == i);
}

/// Where no element from `from` on meets `wanted`, `first_index` gives none.
pub proof fn lemma_first_index_none<T>(items: Seq<T>, wanted: spec_fn(T) -> bool, from: int)
    requires
        forall|j: int| from <= j < items.len() ==> !wanted(#[trigger] items[j]),
    ensures
        first_index(items, wanted, from) is None,
{
}

} // verus!
