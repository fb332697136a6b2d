//! Facts about filtered and mapped sequences.

use vstd::prelude::*;

verus! {

/// Filtering a sequence with one more item filters the sequence and then
/// keeps or drops the item.
pub proof fn lemma_filter_push<T>(items: Seq<T>, item: T, keep: spec_fn(T) -> bool)
    ensures
        items.push(item).filter(keep) == if keep(item) {
            items.filter(keep).push(item)
        } else {
            items.filter(keep)
        },
{
    reveal(Seq::filter);
    assert(items.push(item).drop_last() == items);
}

/// Filtering after mapping is mapping after filtering, when the filter
/// before the mapping keeps what the filter after it keeps.
pub proof fn lemma_filter_of_map<A, B>(
    items: Seq<A>,
    map: spec_fn(A) -> B,
    keep_mapped: spec_fn(B) -> bool,
    keep: spec_fn(A) -> bool,
)
    requires
        forall|i: int| 0 <= i < items.len() ==> keep_mapped(map(#[trigger] items[i])) == keep(items[i]),
    ensures
        items.map_values(map).filter(keep_mapped) == items.filter(keep).map_values(map),
    decreases items.len(),
{
    reveal(Seq::filter);
    if items.len() == 0 {
        assert(items.map_values(map).filter(keep_mapped) =~= items.filter(keep).map_values(map));
    } else {
        let init = items.drop_last();
        let last = items.last();
        assert forall|i: int| 0 <= i < init.len() implies keep_mapped(map(#[trigger] init[i]))
            == keep(init[i]) by {
            assert(init[i] == items[i]);
        }
        lemma_filter_of_map(init, map, keep_mapped, keep);
        assert(items =~= init.push(last));
        assert(items.map_values(map) =~= init.map_values(map).push(map(last)));
        lemma_filter_push(init.map_values(map), map(last), keep_mapped);
        lemma_filter_push(init, last, keep);
        assert(items.map_values(map).filter(keep_mapped) =~= items.filter(keep).map_values(map));
    }
}

/// Filtering twice is filtering once by both conditions.
pub proof fn lemma_filter_twice<A>(
    items: Seq<A>,
    first: spec_fn(A) -> bool,
    second: spec_fn(A) -> bool,
    both: spec_fn(A) -> bool,
)
    requires
        forall|i: int|
            0 <= i < items.len() ==> both(#[trigger] items[i]) == (first(items[i]) && second(
                items[i],
            )),
    ensures
        items.filter(first).filter(second) == items.filter(both),
    decreases items.len(),
{
    reveal(Seq::filter);
    if items.len() == 0 {
        assert(items.filter(first).filter(second) =~= items.filter(both));
    } else {
        let init = items.drop_last();
        let last = items.last();
        assert forall|i: int| 0 <= i < init.len() implies both(#[trigger] init[i]) == (first(
            init[i],
        ) && second(init[i])) by {
            assert(init[i] == items[i]);
        }
        lemma_filter_twice(init, first, second, both);
        assert(items =~= init.push(last));
        lemma_filter_push(init, last, first);
        lemma_filter_push(init, last, both);
        if first(last) {
            lemma_filter_push(init.filter(first), last, second);
        }
    }
}

/// A filter that keeps nothing leaves nothing.
pub proof fn lemma_filter_none<A>(items: Seq<A>, keep: spec_fn(A) -> bool)
    requires
        forall|i: int| 0 <= i < items.len() ==> !keep(#[trigger] items[i]),
    ensures
        items.filter(keep) == Seq::<A>::empty(),
    decreases items.len(),
{
    reveal(Seq::filter);
    if items.len() > 0 {
        let init = items.drop_last();
        assert forall|i: int| 0 <= i < init.len() implies !keep(#[trigger] init[i]) by {
            assert(init[i] == items[i]);
        }
        lemma_filter_none(init, keep);
    }
}

/// A filter that keeps at most the item at `at` leaves that item alone,
/// or nothing.
pub proof fn lemma_filter_one<A>(items: Seq<A>, keep: spec_fn(A) -> bool, at: int)
    requires
        0 <= at < items.len(),
        forall|i: int| 0 <= i < items.len() && i != at ==> !keep(#[trigger] items[i]),
    ensures
        items.filter(keep) == if keep(items[at]) {
            seq![items[at]]
        } else {
            Seq::<A>::empty()
        },
    decreases items.len(),
{
    reveal(Seq::filter);
    let init = items.drop_last();
    let last = items.last();
    assert(items =~= init.push(last));
    lemma_filter_push(init, last, keep);
    if at == items.len() - 1 {
        assert forall|i: int| 0 <= i < init.len() implies !keep(#[trigger] init[i]) by {
            assert(init[i] == items[i]);
        }
        lemma_filter_none(init, keep);
        assert(Seq::<A>::empty().push(last) =~= seq![last]);
    } else {
        assert forall|i: int| 0 <= i < init.len() && i != at implies !keep(#[trigger] init[i]) by {
            assert(init[i] == items[i]);
        }
        lemma_filter_one(init, keep, at);
        assert(init[at] == items[at]);
    }
}

/// What a filter keeps is an item of the sequence that meets the
/// filter's condition.
pub proof fn lemma_filter_from<A>(items: Seq<A>, keep: spec_fn(A) -> bool, k: int)
    requires
        0 <= k < items.filter(keep).len(),
    ensures
        items.contains(items.filter(keep)[k]),
        keep(items.filter(keep)[k]),
    decreases items.len(),
{
    reveal(Seq::filter);
    if items.len() > 0 {
        let init = items.drop_last();
        let last = items.last();
        assert(items =~= init.push(last));
        lemma_filter_push(init, last, keep);
        if keep(last) && k == init.filter(keep).len() {
            assert(items[items.len() - 1] == last);
        } else {
            lemma_filter_from(init, keep, k);
            let kept = init.filter(keep)[k];
            let i = choose|i: int| 0 <= i < init.len() && init[i] == kept;
            assert(items[i] == kept);
        }
    }
}

} // verus!
