//! Sets of strings, listed in order.

use crate::list::{add_item, empty_list};
use crate::ordered_map;
use crate::ordered_map::OrderedMap;
use crate::text;
use vstd::prelude::*;

verus! {

/// Whether a list is in strictly ascending order, so that nothing occurs twice.
pub open spec fn strictly_ascending(list: Seq<Seq<char>>) -> bool {
    forall|i: int, j: int|
        0 <= i < j < list.len() ==> text::lex_less(#[trigger] list[i], #[trigger] list[j])
}

/// The elements of a set in ascending order.
pub open spec fn in_order(set: Set<Seq<char>>) -> Seq<Seq<char>> {
    choose|list: Seq<Seq<char>>| strictly_ascending(list) && list.to_set() == set
}

/// A list in ascending order, as entries of a map.
spec fn marked(list: Seq<Seq<char>>) -> Seq<(Seq<char>, bool)> {
    list.map_values(|element: Seq<char>| (element, true))
}

/// The map of marked elements holds exactly them.
proof fn lemma_marked(list: Seq<Seq<char>>)
    requires
        strictly_ascending(list),
    ensures
        ordered_map::in_key_order(marked(list)),
        ordered_map::as_map(marked(list)) == Map::new(
            |element: Seq<char>| list.to_set().contains(element),
            |element: Seq<char>| true,
        ),
{
    let entries = marked(list);
    assert forall|i: int, j: int| 0 <= i < j < entries.len() implies text::lex_less(
        #[trigger] entries[i].0,
        #[trigger] entries[j].0,
    ) by {
        assert(text::lex_less(list[i], list[j]));
    }
    let map = ordered_map::as_map(entries);
    let expected = Map::new(
        |element: Seq<char>| list.to_set().contains(element),
        |element: Seq<char>| true,
    );
    assert forall|element: Seq<char>| #[trigger] map.dom().contains(element)
        <==> expected.dom().contains(element) by {
        ordered_map::lemma_as_map_keys(entries, element);
        if map.dom().contains(element) {
            let i = choose|i: int| 0 <= i < entries.len() && #[trigger] entries[i].0 == element;
            assert(list[i] == element);
        }
        if list.to_set().contains(element) {
            let i = choose|i: int| 0 <= i < list.len() && list[i] == element;
            assert(entries[i].0 == element);
        }
    }
    assert forall|element: Seq<char>| #[trigger] map.dom().contains(element) implies map[element]
        == expected[element] by {
        ordered_map::lemma_as_map_keys(entries, element);
        let i = choose|i: int| 0 <= i < entries.len() && #[trigger] entries[i].0 == element;
        ordered_map::lemma_as_map_value(entries, i);
    }
    assert(map =~= expected);
}

/// The elements of a list in ascending order are the list itself.
pub proof fn lemma_in_order(list: Seq<Seq<char>>)
    requires
        strictly_ascending(list),
    ensures
        in_order(list.to_set()) == list,
{
    let chosen = in_order(list.to_set());
    assert(strictly_ascending(chosen) && chosen.to_set() == list.to_set());
    lemma_marked(list);
    lemma_marked(chosen);
    ordered_map::lemma_order_is_unique(marked(list), marked(chosen));
    assert forall|i: int| 0 <= i < list.len() implies list[i] == chosen[i] by {
        assert(marked(list)[i].0 == marked(chosen)[i].0);
    }
    assert(marked(list).len() == list.len());
    assert(marked(chosen).len() == chosen.len());
    assert(list =~= chosen);
}

/// The elements of every list can be put in ascending order.
pub proof fn lemma_listed(list: Seq<Seq<char>>)
    ensures
        strictly_ascending(in_order(list.to_set())),
        in_order(list.to_set()).to_set() == list.to_set(),
{
    let set = list.to_set();
    vstd::seq_lib::seq_to_set_is_finite(list);
    let map = Map::new(|element: Seq<char>| set.contains(element), |element: Seq<char>| true);
    assert(map.dom() =~= set);
    ordered_map::lemma_entries_in_order(map);
    let entries = ordered_map::ordered_entries(map);
    let ordered = entries.map_values(|entry: (Seq<char>, bool)| entry.0);
    assert forall|i: int, j: int| 0 <= i < j < ordered.len() implies text::lex_less(
        #[trigger] ordered[i],
        #[trigger] ordered[j],
    ) by {
        assert(text::lex_less(entries[i].0, entries[j].0));
    }
    assert forall|element: Seq<char>| #[trigger] ordered.to_set().contains(element)
        <==> set.contains(element) by {
        ordered_map::lemma_as_map_keys(entries, element);
        if ordered.contains(element) {
            let i = choose|i: int| 0 <= i < ordered.len() && ordered[i] == element;
            assert(entries[i].0 == element);
        }
        if map.dom().contains(element) {
            let i = choose|i: int| 0 <= i < entries.len() && #[trigger] entries[i].0 == element;
            assert(ordered[i] == element);
        }
    }
    assert(ordered.to_set() =~= set);
    assert(strictly_ascending(ordered) && ordered.to_set() == set);
}

/// The different strings of a list, in ascending order.
pub fn sort_and_dedup(list: &Vec<String>) -> (sorted: Vec<String>)
    ensures
        strictly_ascending(sorted.deep_view()),
        sorted.deep_view().to_set() == list.deep_view().to_set(),
        sorted.deep_view() == in_order(list.deep_view().to_set()),
{
    let ghost all = list.deep_view();
    let mut elements: OrderedMap<bool> = OrderedMap::new();
    let mut i: usize = 0;
    proof {
        assert(all.take(0).to_set() =~= Set::empty());
    }
    while i < list.len()
        invariant
            i <= list.len(),
            all == list.deep_view(),
            elements@.dom() == all.take(i as int).to_set(),
        decreases list.len() - i,
    {
        elements.insert(list[i].as_str(), true);
        proof {
            let next = all.take(i + 1);
            assert(next =~= all.take(i as int).push(list[i as int]@));
            assert(next.to_set() =~= all.take(i as int).to_set().insert(list[i as int]@)) by {
                assert forall|element: Seq<char>| #[trigger] next.to_set().contains(element)
                    <==> all.take(i as int).to_set().insert(list[i as int]@).contains(element) by {
                    if next.contains(element) {
                        let k = choose|k: int| 0 <= k < next.len() && next[k] == element;
                        if k < i {
                            assert(all.take(i as int)[k] == element);
                        }
                    }
                    if all.take(i as int).contains(element) {
                        let k = choose|k: int|
                            0 <= k < all.take(i as int).len() && all.take(i as int)[k] == element;
                        assert(next[k] == element);
                    }
                    assert(next[i as int] == list[i as int]@);
                }
            }
        }
        i = i + 1;
    }
    proof {
        assert(all.take(i as int) =~= all);
    }
    let ghost entries = ordered_map::ordered_entries(elements@);
    let count: usize = elements.len();
    let mut sorted: Vec<String> = empty_list();
    let mut k: usize = 0;
    proof {
        ordered_map::lemma_entries_in_order(elements@);
    }
    while k < count
        invariant
            k <= count,
            count == entries.len(),
            entries == ordered_map::ordered_entries(elements@),
            sorted.deep_view().len() == k,
            forall|j: int| 0 <= j < k ==> sorted.deep_view()[j] == (#[trigger] entries[j]).0,
        decreases count - k,
    {
        let (element, _) = elements.entry(k);
        add_item(&mut sorted, element.clone());
        k = k + 1;
    }
    proof {
        let result = sorted.deep_view();
        assert forall|a: int, b: int| 0 <= a < b < result.len() implies text::lex_less(
            #[trigger] result[a],
            #[trigger] result[b],
        ) by {
            assert(text::lex_less(entries[a].0, entries[b].0));
        }
        assert forall|element: Seq<char>| #[trigger] result.to_set().contains(element)
            <==> all.to_set().contains(element) by {
            ordered_map::lemma_as_map_keys(entries, element);
            if result.contains(element) {
                let j = choose|j: int| 0 <= j < result.len() && result[j] == element;
                assert(entries[j].0 == element);
            }
            if elements@.dom().contains(element) {
                let j = choose|j: int| 0 <= j < entries.len() && #[trigger] entries[j].0 == element;
                assert(result[j] == element);
            }
        }
        assert(result.to_set() =~= all.to_set());
        lemma_in_order(result);
    }
    sorted
}

} // verus!
