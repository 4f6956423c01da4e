//! Keeping the values that are present.

use vstd::prelude::*;

verus! {

/// The values that are present in a sequence, in its order.
pub open spec fn present<T>(items: Seq<Option<T>>) -> Seq<T>
    decreases items.len(),
{
    if items.len() == 0 {
        Seq::empty()
    } else {
        let before = present(items.drop_last());
        match items.last() {
            Some(value) => before.push(value),
            None => before,
        }
    }
}

/// What a selection keeps of a sequence: for each item the value that stands for it, if any.
pub open spec fn select<A, B>(items: Seq<A>, pick: spec_fn(A) -> Option<B>) -> Seq<B> {
    present(items.map_values(pick))
}

/// A selection of one more item adds what stands for that item.
pub proof fn lemma_select_step<A, B>(items: Seq<A>, pick: spec_fn(A) -> Option<B>, i: int)
    requires
        0 <= i < items.len(),
    ensures
        select(items.take(i + 1), pick) == (match pick(items[i]) {
            Some(value) => select(items.take(i), pick).push(value),
            None => select(items.take(i), pick),
        }),
{
    let longer = items.take(i + 1).map_values(pick);
    assert(longer.drop_last() =~= items.take(i).map_values(pick));
    assert(longer.last() == pick(items[i]));
}

/// Each selected value stands for some item, and each value that stands for an item is
/// selected.
pub proof fn lemma_select_contains<A, B>(items: Seq<A>, pick: spec_fn(A) -> Option<B>, value: B)
    ensures
        select(items, pick).contains(value) <==> exists|i: int|
            0 <= i < items.len() && pick(#[trigger] items[i]) == Some(value),
    decreases items.len(),
{
    if items.len() == 0 {
        assert(items.map_values(pick) =~= Seq::<Option<B>>::empty());
    } else {
        let last = items.len() - 1;
        let shorter = items.take(last);
        lemma_select_contains(shorter, pick, value);
        lemma_select_step(items, pick, last);
        assert(items.take(last + 1) =~= items);
        let before = select(shorter, pick);
        let all = select(items, pick);
        if all.contains(value) {
            let k = choose|k: int| 0 <= k < all.len() && all[k] == value;
            if k < before.len() {
                assert(before.contains(before[k]));
                let i = choose|i: int|
                    0 <= i < shorter.len() && pick(#[trigger] shorter[i]) == Some(value);
                assert(pick(items[i]) == Some(value));
            } else {
                assert(pick(items[last]) == Some(value));
            }
        }
        if exists|i: int| 0 <= i < items.len() && pick(#[trigger] items[i]) == Some(value) {
            let i = choose|i: int|
                0 <= i < items.len() && pick(#[trigger] items[i]) == Some(value);
            if i < last {
                assert(pick(shorter[i]) == Some(value));
                let k = choose|k: int| 0 <= k < before.len() && before[k] == value;
                assert(all[k] == value);
            } else {
                assert(all.last() == value);
            }
        }
    }
}

/// Where the items differ by a key that the selected values keep, the selected values differ
/// by it too.
pub proof fn lemma_select_distinct<A, B, K>(
    items: Seq<A>,
    pick: spec_fn(A) -> Option<B>,
    item_key: spec_fn(A) -> K,
    value_key: spec_fn(B) -> K,
)
    requires
        items.map_values(item_key).no_duplicates(),
        forall|i: int|
            #![trigger items[i]]
            0 <= i < items.len() ==> (pick(items[i]) matches Some(value) ==> value_key(value)
                == item_key(items[i])),
    ensures
        select(items, pick).map_values(value_key).no_duplicates(),
    decreases items.len(),
{
    if items.len() == 0 {
        assert(items.map_values(pick) =~= Seq::<Option<B>>::empty());
    } else {
        let last = items.len() - 1;
        let shorter = items.take(last);
        let keys = items.map_values(item_key);
        assert forall|i: int, j: int|
            0 <= i < shorter.len() && 0 <= j < shorter.len() && i != j implies shorter.map_values(
            item_key,
        )[i] != shorter.map_values(item_key)[j] by {
            assert(keys[i] != keys[j]);
        }
        assert forall|i: int| 0 <= i < shorter.len() implies (pick(#[trigger] shorter[i]) matches Some(
            value,
        ) ==> value_key(value) == item_key(shorter[i])) by {
            assert(shorter[i] == items[i]);
        }
        lemma_select_distinct(shorter, pick, item_key, value_key);
        lemma_select_step(items, pick, last);
        assert(items.take(last + 1) =~= items);
        let before = select(shorter, pick);
        let all = select(items, pick);
        let before_keys = before.map_values(value_key);
        let all_keys = all.map_values(value_key);
        assert forall|i: int, j: int|
            0 <= i < all_keys.len() && 0 <= j < all_keys.len() && i != j implies all_keys[i]
            != all_keys[j] by {
            if i < before.len() && j < before.len() {
                assert(before_keys[i] != before_keys[j]);
            } else {
                let k = if i < before.len() {
                    i
                } else {
                    j
                };
                assert(before.contains(before[k]));
                lemma_select_contains(shorter, pick, before[k]);
                let n = choose|n: int|
                    0 <= n < shorter.len() && pick(#[trigger] shorter[n]) == Some(before[k]);
                assert(keys[n] != keys[last]);
                assert(items[n] == shorter[n]);
                assert(pick(items[last]) == Some(all.last()));
            }
        }
    }
}

} // verus!
