//! A map from texts to values that keeps its keys in order.

use vstd::prelude::*;
use vstd::string::*;

use crate::duplicate::Duplicate;
use crate::text::{less, precedes, precedes_irreflexive, precedes_total, precedes_transitive, same};

verus! {

/// Whether the keys of `entries` stand in strictly ascending order.
pub open spec fn ascending<V>(entries: Seq<(String, V)>) -> bool {
    forall|i: int, j: int|
        0 <= i < j < entries.len() ==> precedes(#[trigger] entries[i].0@, #[trigger] entries[j].0@)
}

/// Whether some entry has the key `key`.
pub open spec fn has_key<V>(entries: Seq<(String, V)>, key: Seq<char>) -> bool {
    exists|i: int| 0 <= i < entries.len() && #[trigger] entries[i].0@ == key
}

/// The position of the entry with the key `key`.
pub open spec fn position<V>(entries: Seq<(String, V)>, key: Seq<char>) -> int {
    choose|i: int| 0 <= i < entries.len() && #[trigger] entries[i].0@ == key
}

/// The map that a list of entries stands for.
pub open spec fn entry_map<V>(entries: Seq<(String, V)>) -> Map<Seq<char>, V> {
    Map::new(
        |key: Seq<char>| has_key(entries, key),
        |key: Seq<char>| entries[position(entries, key)].1,
    )
}

/// The keys of a list of entries.
pub open spec fn entry_keys<V>(entries: Seq<(String, V)>) -> Seq<Seq<char>> {
    Seq::new(entries.len(), |i: int| entries[i].0@)
}

/// Whether texts stand in strictly ascending order.
pub open spec fn strictly_ascending(keys: Seq<Seq<char>>) -> bool {
    forall|i: int, j: int|
        0 <= i < j < keys.len() ==> precedes(#[trigger] keys[i], #[trigger] keys[j])
}

/// Whether `keys` lists the members of `dom` and nothing else.
pub open spec fn lists_exactly(keys: Seq<Seq<char>>, dom: Set<Seq<char>>) -> bool {
    forall|key: Seq<char>| #[trigger] keys.contains(key) <==> dom.contains(key)
}

/// The members of `dom` in ascending order.
pub open spec fn sorted_keys(dom: Set<Seq<char>>) -> Seq<Seq<char>> {
    choose|keys: Seq<Seq<char>>| #[trigger]
        strictly_ascending(keys) && lists_exactly(keys, dom)
}

/// Only one list holds the same texts in ascending order.
pub proof fn ascending_lists_are_equal(a: Seq<Seq<char>>, b: Seq<Seq<char>>)
    requires
        strictly_ascending(a),
        strictly_ascending(b),
        forall|key: Seq<char>| #[trigger] a.contains(key) <==> b.contains(key),
    ensures
        a == b,
    decreases a.len(),
{
    if a.len() == 0 {
        if b.len() > 0 {
            assert(b.contains(b[0]));
            assert(a.contains(b[0]));
        }
        assert(a =~= b);
    } else {
        assert(a.contains(a[0]));
        assert(b.contains(a[0]));
        let j = choose|j: int| 0 <= j < b.len() && b[j] == a[0];
        assert(b.contains(b[0]));
        assert(a.contains(b[0]));
        let i = choose|i: int| 0 <= i < a.len() && a[i] == b[0];
        if j > 0 {
            assert(precedes(b[0], b[j]));
            if i > 0 {
                assert(precedes(a[0], a[i]));
                precedes_transitive(a[0], b[0], a[0]);
            }
            precedes_irreflexive(a[0]);
        }
        let rest_a = a.drop_first();
        let rest_b = b.drop_first();
        assert forall|key: Seq<char>| #[trigger] rest_a.contains(key) <==> rest_b.contains(key) by {
            rest_contains(a, key);
            rest_contains(b, key);
            assert(a.contains(key) <==> b.contains(key));
        }
        assert forall|x: int, y: int| 0 <= x < y < rest_a.len() implies precedes(
            #[trigger] rest_a[x],
            #[trigger] rest_a[y],
        ) by {
            assert(precedes(a[x + 1], a[y + 1]));
        }
        assert forall|x: int, y: int| 0 <= x < y < rest_b.len() implies precedes(
            #[trigger] rest_b[x],
            #[trigger] rest_b[y],
        ) by {
            assert(precedes(b[x + 1], b[y + 1]));
        }
        ascending_lists_are_equal(rest_a, rest_b);
        assert(a =~= seq![a[0]] + rest_a);
        assert(b =~= seq![b[0]] + rest_b);
    }
}

/// Without its first text an ascending list holds all others.
proof fn rest_contains(keys: Seq<Seq<char>>, key: Seq<char>)
    requires
        strictly_ascending(keys),
        keys.len() > 0,
    ensures
        keys.drop_first().contains(key) <==> keys.contains(key) && key != keys[0],
{
    let rest = keys.drop_first();
    if rest.contains(key) {
        let i = choose|i: int| 0 <= i < rest.len() && rest[i] == key;
        assert(keys[i + 1] == key);
        assert(precedes(keys[0], keys[i + 1]));
        precedes_irreflexive(key);
    }
    if keys.contains(key) && key != keys[0] {
        let i = choose|i: int| 0 <= i < keys.len() && keys[i] == key;
        assert(rest[i - 1] == key);
    }
}

/// A map from texts to values. Its keys are walked in ascending order.
#[derive(Debug)]
pub struct StringMap<V> {
    entries: Vec<(String, V)>,
}

/// In an ascending list a key stands at one position only.
proof fn position_unique<V>(entries: Seq<(String, V)>, i: int)
    requires
        ascending(entries),
        0 <= i < entries.len(),
    ensures
        has_key(entries, entries[i].0@),
        position(entries, entries[i].0@) == i,
{
    let key = entries[i].0@;
    let p = position(entries, key);
    assert(has_key(entries, key));
    precedes_irreflexive(key);
}

impl<V> View for StringMap<V> {
    type V = Map<Seq<char>, V>;

    closed spec fn view(&self) -> Map<Seq<char>, V> {
        entry_map(self.entries@)
    }
}

impl<V: DeepView> DeepView for StringMap<V> {
    type V = Map<Seq<char>, V::V>;

    open spec fn deep_view(&self) -> Map<Seq<char>, V::V> {
        self@.map_values(|value: V| value.deep_view())
    }
}

impl<V: Duplicate> StringMap<V> {
    /// A map with the same keys and with copies of the values.
    pub fn duplicate_entries(&self) -> (copy: StringMap<V>)
        ensures
            copy.keys() == self.keys(),
            copy@.dom() == self@.dom(),
            forall|key: Seq<char>| #[trigger]
                self@.contains_key(key) ==> copy@[key].deep_view() == self@[key].deep_view(),
    {
        proof {
            use_type_invariant(self);
        }
        let mut entries: Vec<(String, V)> = Vec::new();
        let mut i: usize = 0;
        while i < self.entries.len()
            invariant
                i <= self.entries@.len(),
                entries@.len() == i,
                forall|j: int|
                    0 <= j < i ==> (#[trigger] entries@[j]).0@ == self.entries@[j].0@
                        && entries@[j].1.deep_view() == self.entries@[j].1.deep_view(),
            decreases self.entries@.len() - i,
        {
            entries.push((self.entries[i].0.clone(), self.entries[i].1.duplicate()));
            i = i + 1;
        }
        proof {
            assert forall|i: int, j: int| 0 <= i < j < entries@.len() implies precedes(
                #[trigger] entries@[i].0@,
                #[trigger] entries@[j].0@,
            ) by {
                assert(precedes(self.entries@[i].0@, self.entries@[j].0@));
            }
            assert(entry_keys(entries@) =~= entry_keys(self.entries@));
            assert forall|key: Seq<char>| has_key(entries@, key) == has_key(self.entries@, key) by {
                if has_key(entries@, key) {
                    let p = position(entries@, key);
                    assert(self.entries@[p].0@ == key);
                }
                if has_key(self.entries@, key) {
                    let p = position(self.entries@, key);
                    assert(entries@[p].0@ == key);
                }
            }
            assert forall|key: Seq<char>| #[trigger]
                self@.contains_key(key) implies entry_map(entries@)[key].deep_view()
                == self@[key].deep_view() by {
                let p = position(self.entries@, key);
                position_unique(self.entries@, p);
                assert(entries@[p].0@ == key);
                position_unique(entries@, p);
            }
            assert(entry_map(entries@).dom() =~= self@.dom());
        }
        StringMap { entries }
    }
}

impl<V: DeepView> StringMap<V> {
    /// The value of `key`, if it has one.
    pub fn lookup(&self, key: &str) -> (value: Option<&V>)
        ensures
            match value {
                Some(v) => self.deep_view().contains_key(key@) && v.deep_view()
                    == self.deep_view()[key@],
                None => !self.deep_view().contains_key(key@),
            },
    {
        self.get(key)
    }

    /// Makes `value` the value of `key`.
    pub fn put(&mut self, key: String, value: V)
        ensures
            final(self).deep_view() == old(self).deep_view().insert(key@, value.deep_view()),
    {
        let ghost after = self.deep_view().insert(key@, value.deep_view());
        let _ = self.insert(key, value);
        assert(self.deep_view() =~= after);
    }

    /// Takes the entry of `key` out; gives back its value.
    pub fn take(&mut self, key: &str) -> (before: Option<V>)
        ensures
            final(self).deep_view() == old(self).deep_view().remove(key@),
            before.deep_view() == if old(self).deep_view().contains_key(key@) {
                Some(old(self).deep_view()[key@])
            } else {
                None
            },
    {
        let ghost after = self.deep_view().remove(key@);
        let before = self.remove(key);
        assert(self.deep_view() =~= after);
        before
    }
}

impl<V: Duplicate> Clone for StringMap<V> {
    fn clone(&self) -> (copy: Self)
        ensures
            copy.deep_view() == self.deep_view(),
    {
        self.duplicate()
    }
}

impl<V> StringMap<V> {
    #[verifier::type_invariant]
    spec fn ordered(self) -> bool {
        ascending(self.entries@)
    }

    /// The keys, in the order in which they are walked.
    pub closed spec fn keys(&self) -> Seq<Seq<char>> {
        entry_keys(self.entries@)
    }

    /// A map without entries.
    pub fn new() -> (map: StringMap<V>)
        ensures
            map@ == Map::<Seq<char>, V>::empty(),
            map.keys() == Seq::<Seq<char>>::empty(),
    {
        let map = StringMap { entries: Vec::new() };
        assert(map@ =~= Map::<Seq<char>, V>::empty());
        assert(map.keys() =~= Seq::<Seq<char>>::empty());
        map
    }

    /// The number of entries.
    pub fn len(&self) -> (count: usize)
        ensures
            count == self.keys().len(),
            self@.dom().finite(),
            count == self@.dom().len(),
            self.keys() == sorted_keys(self@.dom()),
    {
        proof {
            use_type_invariant(self);
            keys_walk_the_domain(self.entries@);
        }
        self.entries.len()
    }

    /// Whether there is no entry.
    pub fn is_empty(&self) -> (empty: bool)
        ensures
            empty == (self@ == Map::<Seq<char>, V>::empty()),
            empty == (self.keys().len() == 0),
    {
        proof {
            use_type_invariant(self);
            if self.entries@.len() == 0 {
                assert(self@ =~= Map::<Seq<char>, V>::empty());
            } else {
                position_unique(self.entries@, 0);
                assert(self@.contains_key(self.entries@[0].0@));
            }
        }
        self.entries.len() == 0
    }

    /// The position at which `key` stands or would have to be put, and whether it is there.
    fn search(&self, key: &str) -> (found: (usize, bool))
        ensures
            found.0 <= self.entries@.len(),
            forall|i: int| 0 <= i < found.0 ==> precedes(#[trigger] self.entries@[i].0@, key@),
            found.1 ==> found.0 < self.entries@.len() && self.entries@[found.0 as int].0@ == key@,
            !found.1 ==> forall|i: int|
                found.0 <= i < self.entries@.len() ==> precedes(key@, #[trigger] self.entries@[i].0@),
            found.1 == has_key(self.entries@, key@),
    {
        proof {
            use_type_invariant(self);
        }
        let mut i: usize = 0;
        while i < self.entries.len() && less(self.entries[i].0.as_str(), key)
            invariant
                i <= self.entries@.len(),
                forall|j: int| 0 <= j < i ==> precedes(#[trigger] self.entries@[j].0@, key@),
            decreases self.entries@.len() - i,
        {
            i = i + 1;
        }
        let here = i < self.entries.len() && same(self.entries[i].0.as_str(), key);
        proof {
            assert(self.ordered());
            if !here {
                assert forall|j: int| i <= j < self.entries@.len() implies precedes(
                    key@,
                    #[trigger] self.entries@[j].0@,
                ) by {
                    precedes_total(self.entries@[i as int].0@, key@);
                    if j > i {
                        precedes_transitive(key@, self.entries@[i as int].0@, self.entries@[j].0@);
                    }
                }
            }
            precedes_irreflexive(key@);
        }
        (i, here)
    }

    /// Moves the entries out and leaves the map empty.
    fn take_entries(&mut self) -> (entries: Vec<(String, V)>)
        ensures
            entries@ == old(self).entries@,
    {
        let mut taken: StringMap<V> = StringMap::new();
        std::mem::swap(self, &mut taken);
        taken.entries
    }

    /// Whether `key` has an entry.
    pub fn contains_key(&self, key: &str) -> (present: bool)
        ensures
            present == self@.contains_key(key@),
    {
        self.search(key).1
    }

    /// The value of `key`, if it has one.
    pub fn get(&self, key: &str) -> (value: Option<&V>)
        ensures
            value is Some == self@.contains_key(key@),
            value matches Some(v) ==> *v == self@[key@],
    {
        proof {
            use_type_invariant(self);
        }
        let (i, here) = self.search(key);
        if here {
            proof {
                position_unique(self.entries@, i as int);
            }
            Some(&self.entries[i].1)
        } else {
            None
        }
    }

    /// The key at position `i`.
    pub fn key_at(&self, i: usize) -> (key: &String)
        requires
            i < self.keys().len(),
        ensures
            key@ == self.keys()[i as int],
            self@.contains_key(key@),
    {
        proof {
            use_type_invariant(self);
            position_unique(self.entries@, i as int);
        }
        &self.entries[i].0
    }

    /// The value at position `i`.
    pub fn value_at(&self, i: usize) -> (value: &V)
        requires
            i < self.keys().len(),
        ensures
            self@.contains_key(self.keys()[i as int]),
            *value == self@[self.keys()[i as int]],
    {
        proof {
            use_type_invariant(self);
            position_unique(self.entries@, i as int);
        }
        &self.entries[i].1
    }

    /// Makes `value` the value of `key`; gives back the one that it had.
    pub fn insert(&mut self, key: String, value: V) -> (before: Option<V>)
        ensures
            final(self)@ == old(self)@.insert(key@, value),
            before == if old(self)@.contains_key(key@) {
                Some(old(self)@[key@])
            } else {
                None
            },
    {
        proof {
            use_type_invariant(&*self);
        }
        let ghost start = self.entries@;
        let (i, here) = self.search(key.as_str());
        if here {
            proof {
                position_unique(start, i as int);
            }
            let ghost added = (key, value);
            let mut entries = self.take_entries();
            let before = entries.remove(i);
            entries.insert(i, (key, value));
            proof {
                assert(entries@ =~= start.update(i as int, added));
                lemma_update(start, i as int, added);
            }
            *self = StringMap { entries };
            Some(before.1)
        } else {
            let ghost added = (key, value);
            let mut entries = self.take_entries();
            entries.insert(i, (key, value));
            proof {
                assert(entries@ =~= start.insert(i as int, added));
                lemma_insert(start, i as int, added);
            }
            *self = StringMap { entries };
            None
        }
    }

    /// Takes the entry of `key` out; gives back its value.
    pub fn remove(&mut self, key: &str) -> (before: Option<V>)
        ensures
            final(self)@ == old(self)@.remove(key@),
            before == if old(self)@.contains_key(key@) {
                Some(old(self)@[key@])
            } else {
                None
            },
    {
        proof {
            use_type_invariant(&*self);
        }
        let ghost start = self.entries@;
        let (i, here) = self.search(key);
        if here {
            proof {
                position_unique(start, i as int);
            }
            let mut entries = self.take_entries();
            let before = entries.remove(i);
            proof {
                lemma_remove(start, i as int);
            }
            *self = StringMap { entries };
            Some(before.1)
        } else {
            assert(self@.remove(key@) =~= self@);
            None
        }
    }

    /// Takes every entry out.
    pub fn clear(&mut self)
        ensures
            final(self)@ == Map::<Seq<char>, V>::empty(),
            final(self).keys() == Seq::<Seq<char>>::empty(),
    {
        *self = StringMap::new();
    }

    /// The keys in ascending order.
    pub fn key_list(&self) -> (keys: Vec<String>)
        ensures
            keys.deep_view() == self.keys(),
            keys.deep_view() == sorted_keys(self@.dom()),
            lists_exactly(keys.deep_view(), self@.dom()),
    {
        proof {
            use_type_invariant(self);
            keys_walk_the_domain(self.entries@);
        }
        let mut keys: Vec<String> = Vec::new();
        let mut i: usize = 0;
        while i < self.entries.len()
            invariant
                i <= self.entries@.len(),
                keys@.len() == i,
                forall|j: int| 0 <= j < i ==> #[trigger] keys@[j]@ == self.entries@[j].0@,
            decreases self.entries@.len() - i,
        {
            keys.push(self.entries[i].0.clone());
            i = i + 1;
        }
        assert(keys.deep_view() =~= self.keys());
        keys
    }
}

/// The keys of an ascending list are the domain of its map, once each and in order.
proof fn keys_walk_the_domain<V>(entries: Seq<(String, V)>)
    requires
        ascending(entries),
    ensures
        entry_map(entries).dom().finite(),
        entry_map(entries).dom().len() == entries.len(),
        entry_keys(entries) == sorted_keys(entry_map(entries).dom()),
        lists_exactly(entry_keys(entries), entry_map(entries).dom()),
{
    let keys = entry_keys(entries);
    let dom = entry_map(entries).dom();
    assert forall|i: int, j: int| 0 <= i < keys.len() && 0 <= j < keys.len() && i != j implies keys[i]
        != keys[j] by {
        precedes_irreflexive(keys[i]);
        if i < j {
            assert(precedes(entries[i].0@, entries[j].0@));
        } else {
            assert(precedes(entries[j].0@, entries[i].0@));
        }
    }
    keys.unique_seq_to_set();
    assert forall|key: Seq<char>| #[trigger] keys.contains(key) <==> dom.contains(key) by {
        if keys.contains(key) {
            let p = choose|p: int| 0 <= p < keys.len() && keys[p] == key;
            assert(entries[p].0@ == key);
        }
        if dom.contains(key) {
            let p = position(entries, key);
            assert(keys[p] == key);
        }
    }
    assert forall|key: Seq<char>| keys.to_set().contains(key) == dom.contains(key) by {
        assert(keys.to_set().contains(key) == keys.contains(key));
    }
    assert(keys.to_set() =~= dom);
    assert(strictly_ascending(keys));
    ascending_lists_are_equal(keys, sorted_keys(dom));
}

proof fn lemma_update<V>(entries: Seq<(String, V)>, at: int, entry: (String, V))
    requires
        ascending(entries),
        0 <= at < entries.len(),
        entries[at].0@ == entry.0@,
    ensures
        ascending(entries.update(at, entry)),
        entry_map(entries.update(at, entry)) == entry_map(entries).insert(entry.0@, entry.1),
{
    let after = entries.update(at, entry);
    assert(ascending(after));
    let left = entry_map(after);
    let right = entry_map(entries).insert(entry.0@, entry.1);
    assert forall|key: Seq<char>| left.contains_key(key) <==> right.contains_key(key) by {
        if has_key(after, key) {
            let p = position(after, key);
            assert(entries[p].0@ == key);
        }
        if has_key(entries, key) {
            let p = position(entries, key);
            assert(after[p].0@ == key);
        }
        assert(after[at].0@ == entry.0@);
    }
    assert forall|key: Seq<char>| left.contains_key(key) implies left[key] == right[key] by {
        let p = position(after, key);
        position_unique(after, p);
        position_unique(entries, p);
        position_unique(entries, at);
    }
    assert(left =~= right);
}

proof fn lemma_insert<V>(entries: Seq<(String, V)>, at: int, entry: (String, V))
    requires
        ascending(entries),
        0 <= at <= entries.len(),
        forall|i: int| 0 <= i < at ==> precedes(#[trigger] entries[i].0@, entry.0@),
        forall|i: int| at <= i < entries.len() ==> precedes(entry.0@, #[trigger] entries[i].0@),
    ensures
        ascending(entries.insert(at, entry)),
        entry_map(entries.insert(at, entry)) == entry_map(entries).insert(entry.0@, entry.1),
{
    let after = entries.insert(at, entry);
    assert forall|i: int, j: int| 0 <= i < j < after.len() implies precedes(
        #[trigger] after[i].0@,
        #[trigger] after[j].0@,
    ) by {
        if i < at && j > at {
            assert(after[j] == entries[j - 1]);
        } else if i >= at && j > at {
            assert(after[j] == entries[j - 1]);
            if i > at {
                assert(after[i] == entries[i - 1]);
            }
        }
    }
    let left = entry_map(after);
    let right = entry_map(entries).insert(entry.0@, entry.1);
    assert forall|key: Seq<char>| left.contains_key(key) <==> right.contains_key(key) by {
        if has_key(after, key) {
            let p = position(after, key);
            if p < at {
                assert(entries[p].0@ == key);
            } else if p > at {
                assert(entries[p - 1].0@ == key);
            }
        }
        if has_key(entries, key) {
            let p = position(entries, key);
            if p < at {
                assert(after[p].0@ == key);
            } else {
                assert(after[p + 1].0@ == key);
            }
        }
        assert(after[at].0@ == entry.0@);
    }
    assert forall|key: Seq<char>| left.contains_key(key) implies left[key] == right[key] by {
        let p = position(after, key);
        position_unique(after, p);
        if p < at {
            position_unique(entries, p);
        } else if p > at {
            position_unique(entries, p - 1);
        }
        precedes_irreflexive(key);
    }
    assert(left =~= right);
}

proof fn lemma_remove<V>(entries: Seq<(String, V)>, at: int)
    requires
        ascending(entries),
        0 <= at < entries.len(),
    ensures
        ascending(entries.remove(at)),
        entry_map(entries.remove(at)) == entry_map(entries).remove(entries[at].0@),
{
    let after = entries.remove(at);
    let gone = entries[at].0@;
    assert forall|i: int, j: int| 0 <= i < j < after.len() implies precedes(
        #[trigger] after[i].0@,
        #[trigger] after[j].0@,
    ) by {
        let x = if i < at { i } else { i + 1 };
        let y = if j < at { j } else { j + 1 };
        assert(after[i] == entries[x]);
        assert(after[j] == entries[y]);
    }
    let left = entry_map(after);
    let right = entry_map(entries).remove(gone);
    assert forall|key: Seq<char>| left.contains_key(key) <==> right.contains_key(key) by {
        if has_key(after, key) {
            let p = position(after, key);
            let q = if p < at { p } else { p + 1 };
            assert(entries[q].0@ == key);
            position_unique(entries, q);
            position_unique(entries, at);
        }
        if has_key(entries, key) && key != gone {
            let q = position(entries, key);
            assert(q != at);
            let p = if q < at { q } else { q - 1 };
            assert(after[p].0@ == key);
        }
    }
    assert forall|key: Seq<char>| left.contains_key(key) implies left[key] == right[key] by {
        let p = position(after, key);
        let q = if p < at { p } else { p + 1 };
        position_unique(after, p);
        position_unique(entries, q);
    }
    assert(left =~= right);
}

/// The keys of a finite set have exactly one ascending list: each of them stands in it once, and
/// nothing else does.
pub proof fn finite_sets_are_listed(dom: Set<Seq<char>>)
    requires
        dom.finite(),
    ensures
        strictly_ascending(sorted_keys(dom)),
        lists_exactly(sorted_keys(dom), dom),
        sorted_keys(dom).len() == dom.len(),
        sorted_keys(dom).no_duplicates(),
{
    some_list_exists(dom);
    let keys = sorted_keys(dom);
    assert(strictly_ascending(keys) && lists_exactly(keys, dom));
    assert forall|i: int, j: int| 0 <= i < j < keys.len() implies keys[i] != keys[j] by {
        precedes_irreflexive(keys[i]);
    }
    assert(keys.no_duplicates());
    keys.unique_seq_to_set();
    assert(keys.to_set() =~= dom) by {
        assert forall|key: Seq<char>| keys.to_set().contains(key) <==> dom.contains(key) by {
            assert(keys.contains(key) <==> dom.contains(key));
        }
    }
}

/// Some ascending list exists for a finite set.
proof fn some_list_exists(dom: Set<Seq<char>>)
    requires
        dom.finite(),
    ensures
        exists|keys: Seq<Seq<char>>| #[trigger] strictly_ascending(keys) && lists_exactly(keys, dom),
    decreases dom.len(),
{
    if dom.len() == 0 {
        let none = Seq::<Seq<char>>::empty();
        assert(dom =~= Set::empty());
        assert(strictly_ascending(none) && lists_exactly(none, dom));
    } else {
        let key = dom.choose();
        let rest = dom.remove(key);
        some_list_exists(rest);
        let keys = choose|keys: Seq<Seq<char>>| #[trigger]
            strictly_ascending(keys) && lists_exactly(keys, rest);
        let at = place(keys, key, keys.len());
        place_is_between(keys, key, keys.len());
        let more = keys.insert(at as int, key);
        assert forall|i: int| 0 <= i < keys.len() implies keys[i] != key by {
            assert(keys.contains(keys[i]));
        }
        assert forall|i: int| at <= i < keys.len() implies precedes(key, #[trigger] keys[i]) by {
            precedes_total(key, keys[i]);
        }
        assert forall|i: int, j: int| 0 <= i < j < more.len() implies precedes(
            #[trigger] more[i],
            #[trigger] more[j],
        ) by {
            if i < at && j > at {
                assert(more[i] == keys[i] && more[j] == keys[j - 1]);
            } else if i < at && j == at {
                assert(more[i] == keys[i]);
            } else if i < at {
                assert(more[i] == keys[i] && more[j] == keys[j]);
            } else if i == at {
                assert(more[j] == keys[j - 1]);
            } else {
                assert(more[i] == keys[i - 1] && more[j] == keys[j - 1]);
            }
        }
        assert forall|other: Seq<char>| #[trigger] more.contains(other) <==> dom.contains(
            other,
        ) by {
            if more.contains(other) {
                let i = choose|i: int| 0 <= i < more.len() && more[i] == other;
                if i < at {
                    assert(keys[i] == other);
                    assert(keys.contains(other));
                } else if i > at {
                    assert(keys[i - 1] == other);
                    assert(keys.contains(other));
                }
            }
            if dom.contains(other) {
                if other == key {
                    assert(more[at as int] == key);
                } else {
                    assert(keys.contains(other));
                    let i = choose|i: int| 0 <= i < keys.len() && keys[i] == other;
                    if i < at {
                        assert(more[i] == other);
                    } else {
                        assert(more[i + 1] == other);
                    }
                }
            }
        }
        assert(strictly_ascending(more) && lists_exactly(more, dom));
    }
}

/// How many of the first `n` keys stand before the first one that does not precede `key`.
spec fn place(keys: Seq<Seq<char>>, key: Seq<char>, n: nat) -> nat
    decreases n,
{
    if n == 0 {
        0
    } else if precedes(keys[n - 1], key) {
        n
    } else {
        place(keys, key, (n - 1) as nat)
    }
}

/// Everything before the place of a key precedes it, and nothing from there on does.
proof fn place_is_between(keys: Seq<Seq<char>>, key: Seq<char>, n: nat)
    requires
        strictly_ascending(keys),
        n <= keys.len(),
    ensures
        place(keys, key, n) <= n,
        forall|i: int| 0 <= i < place(keys, key, n) ==> precedes(#[trigger] keys[i], key),
        forall|i: int| place(keys, key, n) <= i < n ==> !precedes(#[trigger] keys[i], key),
    decreases n,
{
    if n > 0 {
        if precedes(keys[n - 1], key) {
            assert forall|i: int| 0 <= i < n implies precedes(#[trigger] keys[i], key) by {
                if i < n - 1 {
                    precedes_transitive(keys[i], keys[n - 1], key);
                }
            }
        } else {
            place_is_between(keys, key, (n - 1) as nat);
        }
    }
}

} // verus!
