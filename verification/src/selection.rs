//! What it means to pick some items of a list, in order.
use vstd::prelude::*;

verus! {

/// The places, below `n`, of exactly the wanted items, in order.
pub open spec fn selects(places: Seq<int>, n: int, wanted: spec_fn(int) -> bool) -> bool {
    &&& forall|k: int|
        0 <= k < places.len() ==> 0 <= (#[trigger] places[k]) < n && wanted(places[k])
    &&& forall|j: int, k: int|
        0 <= j < k < places.len() ==> #[trigger] places[j] < #[trigger] places[k]
    &&& forall|i: int| 0 <= i < n && #[trigger] wanted(i) ==> places.contains(i)
}

/// One more item, which is wanted or not.
pub proof fn lemma_select_next(
    places: Seq<int>,
    n: int,
    before: spec_fn(int) -> bool,
    wanted: spec_fn(int) -> bool,
) -> (all: Seq<int>)
    requires
        0 <= n,
        selects(places, n, before),
        forall|i: int| 0 <= i < n ==> #[trigger] wanted(i) == before(i),
    ensures
        all == if wanted(n) {
            places.push(n)
        } else {
            places
        },
        selects(all, n + 1, wanted),
{
    let all = if wanted(n) {
        places.push(n)
    } else {
        places
    };
    assert forall|k: int| 0 <= k < all.len() implies 0 <= (#[trigger] all[k]) < n + 1 && wanted(
        all[k],
    ) by {
        if k < places.len() {
            assert(all[k] == places[k]);
            assert(wanted(places[k]) == before(places[k]));
        }
    }
    assert forall|j: int, k: int| 0 <= j < k < all.len() implies #[trigger] all[j]
        < #[trigger] all[k] by {
        assert(all[j] == places[j]);
        if k < places.len() {
            assert(all[k] == places[k]);
        }
    }
    assert forall|i: int| 0 <= i < n + 1 && #[trigger] wanted(i) implies all.contains(i) by {
        if i < n {
            assert(before(i));
            let k = choose|k: int| 0 <= k < places.len() && places[k] == i;
            assert(all[k] == i);
        } else {
            assert(all[all.len() - 1] == i);
        }
    }
    all
}

/// Filtering a list and mapping what is left picks the items that pass.
pub proof fn lemma_filter_map<A, B>(
    list: Seq<A>,
    pred: spec_fn(A) -> bool,
    map: spec_fn(A) -> B,
) -> (places: Seq<int>)
    ensures
        selects(places, list.len() as int, |i: int| pred(list[i])),
        list.filter(pred).map_values(map).len() == places.len(),
        forall|k: int|
            0 <= k < places.len() ==> #[trigger] list.filter(pred).map_values(map)[k] == map(
                list[places[k]],
            ),
    decreases list.len(),
{
    reveal(Seq::filter);
    if list.len() == 0 {
        Seq::empty()
    } else {
        let front = list.drop_last();
        let before = lemma_filter_map(front, pred, map);
        let n = front.len() as int;
        let places = lemma_select_next(
            before,
            n,
            |i: int| pred(front[i]),
            |i: int| pred(list[i]),
        );
        let result = list.filter(pred).map_values(map);
        assert forall|k: int| 0 <= k < places.len() implies #[trigger] result[k] == map(
            list[places[k]],
        ) by {
            if k < before.len() {
                assert(front.filter(pred).map_values(map)[k] == map(front[before[k]]));
                assert(result[k] == front.filter(pred).map_values(map)[k]);
                assert(0 <= before[k] < n);
            }
        }
        places
    }
}

/// Places are picked alike by conditions that agree.
pub proof fn lemma_selects_alike(
    places: Seq<int>,
    n: int,
    wanted: spec_fn(int) -> bool,
    other: spec_fn(int) -> bool,
)
    requires
        selects(places, n, wanted),
        forall|i: int| 0 <= i < n ==> #[trigger] other(i) == wanted(i),
    ensures
        selects(places, n, other),
{
}

/// The item does not occur earlier in the list.
pub open spec fn first_occurrence<A>(list: Seq<A>, i: int) -> bool {
    forall|j: int| 0 <= j < i ==> #[trigger] list[j] != list[i]
}

/// One more item changes nothing for the others, and occurs for the first time
/// exactly if the others do not hold it.
pub proof fn lemma_first_occurrences<A>(list: Seq<A>)
    requires
        list.len() > 0,
    ensures
        forall|i: int|
            0 <= i < list.len() - 1 ==> #[trigger] first_occurrence(list, i) == first_occurrence(
                list.drop_last(),
                i,
            ),
        first_occurrence(list, list.len() - 1) <==> !list.drop_last().contains(list.last()),
{
    let front = list.drop_last();
    let n = front.len() as int;
    assert forall|i: int| 0 <= i < n implies #[trigger] first_occurrence(list, i)
        == first_occurrence(front, i) by {
        if first_occurrence(list, i) {
            assert forall|j: int| 0 <= j < i implies #[trigger] front[j] != front[i] by {
                assert(list[j] != list[i]);
            }
        }
        if first_occurrence(front, i) {
            assert forall|j: int| 0 <= j < i implies #[trigger] list[j] != list[i] by {
                assert(front[j] != front[i]);
            }
        }
    }
    if !front.contains(list.last()) {
        assert forall|j: int| 0 <= j < n implies #[trigger] list[j] != list[n] by {
            assert(front.contains(front[j]));
        }
    } else {
        let j = choose|j: int| 0 <= j < front.len() && front[j] == list.last();
        assert(list[j] == list[n]);
    }
}

} // verus!
