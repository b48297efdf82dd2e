//! Facts about picking some items of a sequence and reading a value off each.

use vstd::prelude::*;

verus! {

/// Nothing is kept of an empty sequence.
pub proof fn lemma_filter_empty<A>(keep: spec_fn(A) -> bool)
    ensures
        Seq::<A>::empty().filter(keep) == Seq::<A>::empty(),
{
    reveal(Seq::filter);
    assert(Seq::<A>::empty().filter(keep) =~= Seq::<A>::empty());
}

/// Of a sequence with one more item at its end is kept what is kept of what
/// came before, and then the new item if it is kept.
pub proof fn lemma_filter_push<A>(items: Seq<A>, item: A, keep: spec_fn(A) -> bool)
    ensures
        items.push(item).filter(keep) == if keep(item) {
            items.filter(keep).push(item)
        } else {
            items.filter(keep)
        },
{
    reveal(Seq::filter);
    assert(items.push(item).drop_last() =~= items);
}

/// Nothing is picked from an empty sequence.
pub proof fn lemma_select_empty<A, B>(keep: spec_fn(A) -> bool, read: spec_fn(A) -> B)
    ensures
        Seq::<A>::empty().filter(keep).map_values(read) == Seq::<B>::empty(),
{
    reveal(Seq::filter);
    assert(Seq::<A>::empty().filter(keep) =~= Seq::<A>::empty());
    assert(Seq::<A>::empty().map_values(read) =~= Seq::<B>::empty());
}

/// Picking from a sequence with one more item at its end picks the same
/// from what came before, and then the new item if it is kept.
pub proof fn lemma_select_push<A, B>(items: Seq<A>, item: A, keep: spec_fn(A) -> bool, read: spec_fn(A) -> B)
    ensures
        items.push(item).filter(keep).map_values(read) == if keep(item) {
            items.filter(keep).map_values(read).push(read(item))
        } else {
            items.filter(keep).map_values(read)
        },
{
    reveal(Seq::filter);
    let longer = items.push(item);
    assert(longer.drop_last() =~= items);
    assert(longer.last() == item);
    if keep(item) {
        assert(longer.filter(keep) == items.filter(keep).push(item));
        assert(items.filter(keep).push(item).map_values(read) =~= items.filter(keep).map_values(read).push(
            read(item),
        ));
    } else {
        assert(longer.filter(keep) == items.filter(keep));
    }
}

} // verus!
