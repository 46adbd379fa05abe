//! Maps from strings whose entries are kept in the order of their keys.

use crate::contents::{Copied, SameContents};
use crate::list::empty_list;
use crate::text;
use crate::text::{same_text, text_less};
use vstd::prelude::*;

verus! {

/// Whether the keys come in strictly ascending order, so that each key occurs once.
pub open spec fn in_key_order<V>(entries: Seq<(Seq<char>, V)>) -> bool {
    forall|i: int, j: int|
        0 <= i < j < entries.len() ==> text::lex_less(#[trigger] entries[i].0, #[trigger] entries[j].0)
}

/// The map that a list of entries describes; of two entries with one key, the later one counts.
pub open spec fn as_map<V>(entries: Seq<(Seq<char>, V)>) -> Map<Seq<char>, V>
    decreases entries.len(),
{
    if entries.len() == 0 {
        Map::empty()
    } else {
        as_map(entries.drop_last()).insert(entries.last().0, entries.last().1)
    }
}

/// The entries of a map in the order of their keys.
pub open spec fn ordered_entries<V>(map: Map<Seq<char>, V>) -> Seq<(Seq<char>, V)> {
    choose|entries: Seq<(Seq<char>, V)>| in_key_order(entries) && as_map(entries) == map
}

/// A key is in the map exactly if some entry has it.
pub proof fn lemma_as_map_keys<V>(entries: Seq<(Seq<char>, V)>, key: Seq<char>)
    ensures
        as_map(entries).dom().contains(key) <==> exists|i: int|
            0 <= i < entries.len() && #[trigger] entries[i].0 == key,
    decreases entries.len(),
{
    if entries.len() > 0 {
        let front = entries.drop_last();
        lemma_as_map_keys(front, key);
        if as_map(front).dom().contains(key) {
            let i = choose|i: int| 0 <= i < front.len() && #[trigger] front[i].0 == key;
            assert(entries[i].0 == key);
        }
        if exists|i: int| 0 <= i < entries.len() && #[trigger] entries[i].0 == key {
            let i = choose|i: int| 0 <= i < entries.len() && #[trigger] entries[i].0 == key;
            if i < front.len() {
                assert(front[i].0 == key);
            } else {
                assert(entries.last().0 == key);
            }
        }
        assert(entries.last() == entries[entries.len() - 1]);
    }
}

/// In ordered entries every entry counts.
pub proof fn lemma_as_map_value<V>(entries: Seq<(Seq<char>, V)>, i: int)
    requires
        in_key_order(entries),
        0 <= i < entries.len(),
    ensures
        as_map(entries).dom().contains(entries[i].0),
        as_map(entries)[entries[i].0] == entries[i].1,
    decreases entries.len(),
{
    let front = entries.drop_last();
    if i < front.len() {
        assert(in_key_order(front)) by {
            assert forall|a: int, b: int| 0 <= a < b < front.len() implies text::lex_less(
                #[trigger] front[a].0,
                #[trigger] front[b].0,
            ) by {
                assert(text::lex_less(entries[a].0, entries[b].0));
            }
        }
        lemma_as_map_value(front, i);
        assert(front[i] == entries[i]);
        assert(text::lex_less(entries[i].0, entries[entries.len() - 1].0));
        if entries[i].0 == entries.last().0 {
            text::lemma_lex_irreflexive(entries[i].0);
        }
    }
}

/// The order and the map determine the entries.
pub proof fn lemma_order_is_unique<V>(
    a: Seq<(Seq<char>, V)>,
    b: Seq<(Seq<char>, V)>,
)
    requires
        in_key_order(a),
        in_key_order(b),
        as_map(a) == as_map(b),
    ensures
        a == b,
    decreases a.len(),
{
    if a.len() == 0 {
        if b.len() > 0 {
            lemma_as_map_value(b, 0);
            lemma_as_map_keys(a, b[0].0);
        }
        assert(a =~= b);
    } else {
        let last_a = a.len() - 1;
        lemma_as_map_value(a, last_a);
        lemma_as_map_keys(b, a[last_a].0);
        let i = choose|i: int| 0 <= i < b.len() && #[trigger] b[i].0 == a[last_a].0;
        let last_b = b.len() - 1;
        lemma_as_map_value(b, last_b);
        lemma_as_map_keys(a, b[last_b].0);
        let j = choose|j: int| 0 <= j < a.len() && #[trigger] a[j].0 == b[last_b].0;
        if a[last_a].0 != b[last_b].0 {
            assert(i < last_b);
            assert(j < last_a);
            assert(text::lex_less(b[i].0, b[last_b].0));
            assert(text::lex_less(a[j].0, a[last_a].0));
            text::lemma_lex_transitive(a[last_a].0, b[last_b].0, a[last_a].0);
            text::lemma_lex_irreflexive(a[last_a].0);
        }
        let key = a[last_a].0;
        let front_a = a.drop_last();
        let front_b = b.drop_last();
        lemma_front(a);
        lemma_front(b);
        assert(as_map(front_a) =~= as_map(a).remove(key));
        assert(as_map(front_b) =~= as_map(b).remove(key));
        lemma_order_is_unique(front_a, front_b);
        assert(a =~= front_a.push(a[last_a]));
        assert(b =~= front_b.push(b[last_b]));
    }
}

/// Without its last entry an ordered list stays ordered and loses that key.
proof fn lemma_front<V>(entries: Seq<(Seq<char>, V)>)
    requires
        in_key_order(entries),
        entries.len() > 0,
    ensures
        in_key_order(entries.drop_last()),
        !as_map(entries.drop_last()).dom().contains(entries.last().0),
{
    let front = entries.drop_last();
    assert forall|a: int, b: int| 0 <= a < b < front.len() implies text::lex_less(
        #[trigger] front[a].0,
        #[trigger] front[b].0,
    ) by {
        assert(text::lex_less(entries[a].0, entries[b].0));
    }
    lemma_as_map_keys(front, entries.last().0);
    if as_map(front).dom().contains(entries.last().0) {
        let i = choose|i: int| 0 <= i < front.len() && #[trigger] front[i].0 == entries.last().0;
        assert(text::lex_less(entries[i].0, entries[entries.len() - 1].0));
        text::lemma_lex_irreflexive(entries.last().0);
    }
}

/// Ordered entries are the ordered entries of their map.
pub proof fn lemma_ordered_entries<V>(entries: Seq<(Seq<char>, V)>)
    requires
        in_key_order(entries),
    ensures
        ordered_entries(as_map(entries)) == entries,
{
    let chosen = ordered_entries(as_map(entries));
    lemma_order_is_unique(chosen, entries);
}

/// Replacing the value of an entry replaces it in the map.
proof fn lemma_replace<V>(entries: Seq<(Seq<char>, V)>, at: int, value: V)
    requires
        in_key_order(entries),
        0 <= at < entries.len(),
    ensures
        in_key_order(entries.update(at, (entries[at].0, value))),
        as_map(entries.update(at, (entries[at].0, value))) == as_map(entries).insert(
            entries[at].0,
            value,
        ),
{
    let updated = entries.update(at, (entries[at].0, value));
    assert forall|a: int, b: int| 0 <= a < b < updated.len() implies text::lex_less(
        #[trigger] updated[a].0,
        #[trigger] updated[b].0,
    ) by {
        assert(text::lex_less(entries[a].0, entries[b].0));
    }
    let expected = as_map(entries).insert(entries[at].0, value);
    assert forall|key: Seq<char>| #[trigger] as_map(updated).dom().contains(key)
        <==> expected.dom().contains(key) by {
        lemma_as_map_keys(updated, key);
        lemma_as_map_keys(entries, key);
        if as_map(updated).dom().contains(key) {
            let i = choose|i: int| 0 <= i < updated.len() && #[trigger] updated[i].0 == key;
            assert(entries[i].0 == key);
        }
        if as_map(entries).dom().contains(key) {
            let i = choose|i: int| 0 <= i < entries.len() && #[trigger] entries[i].0 == key;
            assert(updated[i].0 == key);
        }
        assert(updated[at].0 == entries[at].0);
    }
    assert forall|key: Seq<char>| #[trigger] as_map(updated).dom().contains(key) implies as_map(
        updated,
    )[key] == expected[key] by {
        lemma_as_map_keys(updated, key);
        let i = choose|i: int| 0 <= i < updated.len() && #[trigger] updated[i].0 == key;
        lemma_as_map_value(updated, i);
        lemma_as_map_value(entries, i);
        if i != at {
            if entries[i].0 == entries[at].0 {
                if i < at {
                    assert(text::lex_less(entries[i].0, entries[at].0));
                } else {
                    assert(text::lex_less(entries[at].0, entries[i].0));
                }
                text::lemma_lex_irreflexive(entries[at].0);
            }
        }
    }
    assert(as_map(updated) =~= expected);
}

/// Putting a new key at its place puts it into the map.
proof fn lemma_place<V>(
    entries: Seq<(Seq<char>, V)>,
    at: int,
    key: Seq<char>,
    value: V,
)
    requires
        in_key_order(entries),
        0 <= at <= entries.len(),
        forall|i: int| 0 <= i < at ==> text::lex_less(#[trigger] entries[i].0, key),
        forall|i: int| at <= i < entries.len() ==> text::lex_less(key, #[trigger] entries[i].0),
    ensures
        in_key_order(entries.insert(at, (key, value))),
        as_map(entries.insert(at, (key, value))) == as_map(entries).insert(key, value),
{
    let placed = entries.insert(at, (key, value));
    assert forall|a: int, b: int| 0 <= a < b < placed.len() implies text::lex_less(
        #[trigger] placed[a].0,
        #[trigger] placed[b].0,
    ) by {
        let a0 = if a < at { a } else { a - 1 };
        let b0 = if b < at { b } else { b - 1 };
        if a != at && b != at {
            assert(text::lex_less(entries[a0].0, entries[b0].0));
        } else if a == at {
            assert(text::lex_less(key, entries[b0].0));
        } else {
            assert(text::lex_less(entries[a0].0, key));
        }
    }
    let expected = as_map(entries).insert(key, value);
    assert forall|k: Seq<char>| #[trigger] as_map(placed).dom().contains(k)
        <==> expected.dom().contains(k) by {
        lemma_as_map_keys(placed, k);
        lemma_as_map_keys(entries, k);
        if as_map(placed).dom().contains(k) {
            let i = choose|i: int| 0 <= i < placed.len() && #[trigger] placed[i].0 == k;
            if i < at {
                assert(entries[i].0 == k);
            } else if i > at {
                assert(entries[i - 1].0 == k);
            }
        }
        if as_map(entries).dom().contains(k) {
            let i = choose|i: int| 0 <= i < entries.len() && #[trigger] entries[i].0 == k;
            if i < at {
                assert(placed[i].0 == k);
            } else {
                assert(placed[i + 1].0 == k);
            }
        }
        assert(placed[at].0 == key);
    }
    assert forall|k: Seq<char>| #[trigger] as_map(placed).dom().contains(k) implies as_map(
        placed,
    )[k] == expected[k] by {
        lemma_as_map_keys(placed, k);
        let i = choose|i: int| 0 <= i < placed.len() && #[trigger] placed[i].0 == k;
        lemma_as_map_value(placed, i);
        if i < at {
            lemma_as_map_value(entries, i);
            text::lemma_lex_irreflexive(key);
        } else if i > at {
            lemma_as_map_value(entries, i - 1);
            text::lemma_lex_irreflexive(key);
        }
    }
    assert(as_map(placed) =~= expected);
}

/// Where a key that is not there belongs.
proof fn lemma_place_of<V>(entries: Seq<(Seq<char>, V)>, key: Seq<char>) -> (at: int)
    requires
        in_key_order(entries),
        forall|i: int| 0 <= i < entries.len() ==> #[trigger] entries[i].0 != key,
    ensures
        0 <= at <= entries.len(),
        forall|i: int| 0 <= i < at ==> text::lex_less(#[trigger] entries[i].0, key),
        forall|i: int| at <= i < entries.len() ==> text::lex_less(key, #[trigger] entries[i].0),
    decreases entries.len(),
{
    if entries.len() == 0 {
        0
    } else {
        let front = entries.drop_last();
        let last = entries.len() - 1;
        lemma_front(entries);
        assert forall|i: int| 0 <= i < front.len() implies #[trigger] front[i].0 != key by {
            assert(entries[i].0 != key);
        }
        let at = lemma_place_of(front, key);
        assert forall|i: int| 0 <= i < at implies text::lex_less(#[trigger] entries[i].0, key) by {
            assert(text::lex_less(front[i].0, key));
        }
        text::lemma_lex_total(entries[last].0, key);
        if at < front.len() {
            assert(text::lex_less(key, front[at].0));
            assert(text::lex_less(entries[at].0, entries[last].0));
            text::lemma_lex_transitive(key, entries[at].0, entries[last].0);
            assert forall|i: int| at <= i < entries.len() implies text::lex_less(
                key,
                #[trigger] entries[i].0,
            ) by {
                if i < last {
                    assert(text::lex_less(key, front[i].0));
                }
            }
            at
        } else if text::lex_less(entries[last].0, key) {
            entries.len() as int
        } else {
            last
        }
    }
}

/// The entries of every finite map can be put in order.
pub proof fn lemma_entries_in_order<V>(map: Map<Seq<char>, V>)
    requires
        map.dom().finite(),
    ensures
        in_key_order(ordered_entries(map)),
        as_map(ordered_entries(map)) == map,
    decreases map.dom().len(),
{
    if map.dom().len() == 0 {
        let none = Seq::<(Seq<char>, V)>::empty();
        assert(map.dom() =~= Set::empty());
        assert(as_map(none) =~= map);
        assert(in_key_order(none));
    } else {
        let key = map.dom().choose();
        let rest = map.remove(key);
        assert(rest.dom() =~= map.dom().remove(key));
        lemma_entries_in_order(rest);
        let entries = ordered_entries(rest);
        assert forall|i: int| 0 <= i < entries.len() implies #[trigger] entries[i].0 != key by {
            lemma_as_map_value(entries, i);
        }
        let at = lemma_place_of(entries, key);
        lemma_place(entries, at, key, map[key]);
        let placed = entries.insert(at, (key, map[key]));
        assert(as_map(placed) =~= map);
        assert(in_key_order(placed) && as_map(placed) == map);
    }
}

/// A list of entries describes a finite map.
pub proof fn lemma_as_map_finite<V>(entries: Seq<(Seq<char>, V)>)
    ensures
        as_map(entries).dom().finite(),
    decreases entries.len(),
{
    if entries.len() > 0 {
        lemma_as_map_finite(entries.drop_last());
    }
}

/// A map from strings, kept in the order of its keys.
#[derive(Debug, PartialEq, Eq)]
pub struct OrderedMap<T: DeepView> {
    entries: Vec<(String, T)>,
}

/// A map from strings to strings.
pub type StringMap = OrderedMap<String>;

impl<T: DeepView> DeepView for OrderedMap<T> {
    type V = Map<Seq<char>, T::V>;

    closed spec fn deep_view(&self) -> Map<Seq<char>, T::V> {
        as_map(self.entries.deep_view())
    }
}

impl<T: DeepView> View for OrderedMap<T> {
    type V = Map<Seq<char>, T::V>;

    open spec fn view(&self) -> Map<Seq<char>, T::V> {
        self.deep_view()
    }
}

impl<T: DeepView> OrderedMap<T> {
    #[verifier::type_invariant]
    spec fn ordered(self) -> bool {
        in_key_order(self.entries.deep_view())
    }

    /// A map without entries.
    pub fn new() -> (map: OrderedMap<T>)
        ensures
            map@ == Map::<Seq<char>, T::V>::empty(),
    {
        let entries: Vec<(String, T)> = empty_list();
        OrderedMap { entries }
    }

    /// Puts a value under a key, in place of one that is there.
    pub fn insert(&mut self, key: &str, value: T)
        ensures
            final(self)@ == old(self)@.insert(key@, value.deep_view()),
    {
        proof {
            use_type_invariant(&*self);
        }
        let mut entries: Vec<(String, T)> = empty_list();
        std::mem::swap(&mut entries, &mut self.entries);
        let ghost before = entries.deep_view();
        let ghost contents = value.deep_view();
        let mut at: usize = 0;
        while at < entries.len() && text_less(entries[at].0.as_str(), key)
            invariant
                at <= entries.len(),
                entries.deep_view() == before,
                in_key_order(before),
                forall|i: int| 0 <= i < at ==> text::lex_less(#[trigger] before[i].0, key@),
            decreases entries.len() - at,
        {
            proof {
                assert(before[at as int].0 == entries[at as int].0@);
            }
            at = at + 1;
        }
        if at < entries.len() && same_text(entries[at].0.as_str(), key) {
            let kept = entries[at].0.clone();
            entries.set(at, (kept, value));
            proof {
                assert(before[at as int].0 == key@);
                assert(entries.deep_view() =~= before.update(at as int, (key@, contents)));
                lemma_replace(before, at as int, contents);
            }
        } else {
            entries.insert(at, (key.to_owned(), value));
            proof {
                assert(entries.deep_view() =~= before.insert(at as int, (key@, contents)));
                assert forall|i: int| at <= i < before.len() implies text::lex_less(
                    key@,
                    #[trigger] before[i].0,
                ) by {
                    let first = before[at as int].0;
                    text::lemma_lex_total(first, key@);
                    if i > at {
                        assert(text::lex_less(before[at as int].0, before[i].0));
                        text::lemma_lex_transitive(key@, first, before[i].0);
                    }
                }
                lemma_place(before, at as int, key@, contents);
            }
        }
        self.entries = entries;
    }

    /// The value under a key, if there is one.
    pub fn get(&self, key: &str) -> (value: Option<&T>)
        ensures
            value.is_some() == self@.dom().contains(key@),
            value.is_some() ==> value.unwrap().deep_view() == self@[key@],
    {
        proof {
            use_type_invariant(self);
        }
        let ghost entries = self.entries.deep_view();
        let mut i: usize = 0;
        while i < self.entries.len()
            invariant
                i <= self.entries.len(),
                entries == self.entries.deep_view(),
                in_key_order(entries),
                self@ == as_map(entries),
                forall|j: int| 0 <= j < i ==> #[trigger] entries[j].0 != key@,
            decreases self.entries.len() - i,
        {
            proof {
                assert(entries[i as int].0 == self.entries[i as int].0@);
                lemma_as_map_value(entries, i as int);
            }
            if same_text(self.entries[i].0.as_str(), key) {
                return Some(&self.entries[i].1);
            }
            i = i + 1;
        }
        proof {
            lemma_as_map_keys(entries, key@);
        }
        None
    }

    /// Whether there is a value under a key.
    pub fn contains_key(&self, key: &str) -> (yes: bool)
        ensures
            yes == self@.dom().contains(key@),
    {
        self.get(key).is_some()
    }

    /// The number of entries.
    pub fn len(&self) -> (len: usize)
        ensures
            len == ordered_entries(self@).len(),
            self@.dom().finite(),
    {
        proof {
            use_type_invariant(self);
            lemma_ordered_entries(self.entries.deep_view());
            lemma_as_map_finite(self.entries.deep_view());
        }
        self.entries.len()
    }

    /// The entry at a position in the order of the keys.
    pub fn entry(&self, at: usize) -> (entry: (&String, &T))
        requires
            at < ordered_entries(self@).len(),
        ensures
            (entry.0@, entry.1.deep_view()) == ordered_entries(self@)[at as int],
            self@.dom().contains(entry.0@),
            self@[entry.0@] == entry.1.deep_view(),
    {
        proof {
            use_type_invariant(self);
            lemma_ordered_entries(self.entries.deep_view());
            lemma_as_map_value(self.entries.deep_view(), at as int);
        }
        let found = &self.entries[at];
        (&found.0, &found.1)
    }
}

impl<T: Copied> OrderedMap<T> {
    /// Puts every entry of another map into this one, in place of what was under the same key.
    pub fn extend(&mut self, other: &OrderedMap<T>)
        ensures
            final(self)@ == old(self)@.union_prefer_right(other@),
    {
        proof {
            use_type_invariant(other);
        }
        let ghost before = self@;
        let ghost added = other.entries.deep_view();
        let mut i: usize = 0;
        proof {
            assert(added.take(0) =~= Seq::empty());
            assert(before.union_prefer_right(Map::empty()) =~= before);
        }
        while i < other.entries.len()
            invariant
                i <= other.entries.len(),
                added == other.entries.deep_view(),
                self@ == before.union_prefer_right(as_map(added.take(i as int))),
            decreases other.entries.len() - i,
        {
            let value = other.entries[i].1.copied();
            self.insert(other.entries[i].0.as_str(), value);
            proof {
                let next = added.take(i + 1);
                assert(next.drop_last() =~= added.take(i as int));
                assert(next.last() == added[i as int]);
                assert(self@ =~= before.union_prefer_right(as_map(next)));
            }
            i = i + 1;
        }
        proof {
            assert(added.take(i as int) =~= added);
        }
    }
}

impl OrderedMap<String> {
    /// Puts a text under a key, in place of one that is there.
    pub fn put(&mut self, key: &str, value: &str)
        ensures
            final(self)@ == old(self)@.insert(key@, value@),
    {
        self.insert(key, value.to_owned());
    }
}

impl<T: Copied> Copied for OrderedMap<T> {
    fn copied(&self) -> (copy: OrderedMap<T>) {
        let mut copy = OrderedMap::new();
        copy.extend(self);
        proof {
            assert(Map::<Seq<char>, T::V>::empty().union_prefer_right(self@) =~= self@);
        }
        copy
    }
}

impl<T: SameContents> SameContents for OrderedMap<T> {
    fn same(&self, other: &OrderedMap<T>) -> (same: bool) {
        proof {
            use_type_invariant(self);
            use_type_invariant(other);
            lemma_ordered_entries(self.entries.deep_view());
            lemma_ordered_entries(other.entries.deep_view());
        }
        let ghost a = self.entries.deep_view();
        let ghost b = other.entries.deep_view();
        if self.entries.len() != other.entries.len() {
            return false;
        }
        let mut i: usize = 0;
        while i < self.entries.len()
            invariant
                i <= self.entries.len(),
                self.entries.len() == other.entries.len(),
                a == self.entries.deep_view(),
                b == other.entries.deep_view(),
                self@ == as_map(a),
                other@ == as_map(b),
                ordered_entries(self@) == a,
                ordered_entries(other@) == b,
                forall|j: int| 0 <= j < i ==> a[j] == b[j],
            decreases self.entries.len() - i,
        {
            proof {
                assert(a[i as int] == (
                    self.entries[i as int].0@,
                    self.entries[i as int].1.deep_view(),
                ));
                assert(b[i as int] == (
                    other.entries[i as int].0@,
                    other.entries[i as int].1.deep_view(),
                ));
            }
            if !same_text(self.entries[i].0.as_str(), other.entries[i].0.as_str()) {
                return false;
            }
            if !self.entries[i].1.same(&other.entries[i].1) {
                return false;
            }
            i = i + 1;
        }
        proof {
            assert(a =~= b);
        }
        true
    }
}

impl<T: Copied> Clone for OrderedMap<T> {
    fn clone(&self) -> (copy: OrderedMap<T>)
        ensures
            copy.deep_view() == self.deep_view(),
    {
        self.copied()
    }
}

impl<T: DeepView> Default for OrderedMap<T> {
    fn default() -> (map: OrderedMap<T>)
        ensures
            map.deep_view() == Map::<Seq<char>, T::V>::empty(),
    {
        OrderedMap::new()
    }
}

} // verus!
