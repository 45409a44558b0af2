//! A map from strings to values that keeps its entries in the order in which
//! their keys were first inserted.
use vstd::prelude::*;
use vstd::string::*;

verus! {

/// An entry of a map as mathematical values: the key's text, and the value.
pub type Pair<V> = (Seq<char>, V);

/// Whether `key` is the key of one of `entries`.
pub open spec fn has_key<V>(entries: Seq<Pair<V>>, key: Seq<char>) -> bool {
    exists|i: int| 0 <= i < entries.len() && (#[trigger] entries[i]).0 == key
}

/// No key occurs twice among `entries`.
pub open spec fn distinct_keys<V>(entries: Seq<Pair<V>>) -> bool {
    forall|i: int, j: int|
        0 <= i < j < entries.len() ==> (#[trigger] entries[i]).0 != (#[trigger] entries[j]).0
}

/// The map that `entries` write down: each key with the value beside it.
pub open spec fn map_of<V>(entries: Seq<Pair<V>>) -> Map<Seq<char>, V> {
    Map::new(
        |key: Seq<char>| has_key(entries, key),
        |key: Seq<char>|
            entries[choose|i: int| 0 <= i < entries.len() && (#[trigger] entries[i]).0 == key].1,
    )
}

/// Where no key occurs twice, the map holds each entry's value at its key.
pub proof fn lemma_map_of_entry<V>(entries: Seq<Pair<V>>, i: int)
    requires
        distinct_keys(entries),
        0 <= i < entries.len(),
    ensures
        map_of(entries).contains_key(entries[i].0),
        map_of(entries)[entries[i].0] == entries[i].1,
{
    let key = entries[i].0;
    let j = choose|j: int| 0 <= j < entries.len() && (#[trigger] entries[j]).0 == key;
    assert(j == i);
}

/// An entry with a new key adds that key to the map.
pub proof fn lemma_map_of_push<V>(entries: Seq<Pair<V>>, key: Seq<char>, value: V)
    requires
        distinct_keys(entries),
        !has_key(entries, key),
    ensures
        distinct_keys(entries.push((key, value))),
        map_of(entries.push((key, value))) == map_of(entries).insert(key, value),
{
    let more = entries.push((key, value));
    assert forall|i: int, j: int| 0 <= i < j < more.len() implies (#[trigger] more[i]).0 != (
    #[trigger] more[j]).0 by {
        if j == entries.len() {
            assert(entries[i].0 != key);
        } else {
            assert(more[i] == entries[i] && more[j] == entries[j]);
        }
    }
    assert forall|k: Seq<char>| has_key(more, k) <==> (k == key || has_key(entries, k)) by {
        if has_key(entries, k) {
            let i = choose|i: int| 0 <= i < entries.len() && (#[trigger] entries[i]).0 == k;
            assert(more[i].0 == k);
        }
        if k == key {
            assert(more[entries.len() as int].0 == k);
        }
        if has_key(more, k) && k != key {
            let i = choose|i: int| 0 <= i < more.len() && (#[trigger] more[i]).0 == k;
            assert(entries[i].0 == k);
        }
    }
    assert forall|k: Seq<char>| has_key(more, k) implies #[trigger] map_of(more)[k] == map_of(
        entries,
    ).insert(key, value)[k] by {
        let i = choose|i: int| 0 <= i < more.len() && (#[trigger] more[i]).0 == k;
        lemma_map_of_entry(more, i);
        if k != key {
            assert(entries[i] == more[i]);
            lemma_map_of_entry(entries, i);
        } else {
            assert(i == entries.len()) by {
                if i < entries.len() {
                    assert(entries[i].0 == key);
                }
            }
        }
    }
    assert(map_of(more) =~= map_of(entries).insert(key, value));
}

/// A new value in place of the value of an entry changes the map at that
/// entry's key, and nowhere else.
pub proof fn lemma_map_of_update<V>(entries: Seq<Pair<V>>, i: int, value: V)
    requires
        distinct_keys(entries),
        0 <= i < entries.len(),
    ensures
        distinct_keys(entries.update(i, (entries[i].0, value))),
        map_of(entries.update(i, (entries[i].0, value))) == map_of(entries).insert(
            entries[i].0,
            value,
        ),
{
    let key = entries[i].0;
    let changed = entries.update(i, (key, value));
    assert forall|a: int, b: int| 0 <= a < b < changed.len() implies (#[trigger] changed[a]).0 != (
    #[trigger] changed[b]).0 by {
        assert(changed[a].0 == entries[a].0 && changed[b].0 == entries[b].0);
    }
    assert forall|k: Seq<char>| has_key(changed, k) <==> has_key(entries, k) by {
        if has_key(entries, k) {
            let j = choose|j: int| 0 <= j < entries.len() && (#[trigger] entries[j]).0 == k;
            assert(changed[j].0 == k);
        }
        if has_key(changed, k) {
            let j = choose|j: int| 0 <= j < changed.len() && (#[trigger] changed[j]).0 == k;
            assert(entries[j].0 == k);
        }
    }
    assert(has_key(entries, key)) by {
        assert(entries[i].0 == key);
    }
    assert forall|k: Seq<char>| has_key(changed, k) implies #[trigger] map_of(changed)[k] == map_of(
        entries,
    ).insert(key, value)[k] by {
        let j = choose|j: int| 0 <= j < changed.len() && (#[trigger] changed[j]).0 == k;
        lemma_map_of_entry(changed, j);
        if k != key {
            assert(changed[j] == entries[j]);
            lemma_map_of_entry(entries, j);
        } else {
            assert(j == i) by {
                assert(changed[i].0 == key);
            }
        }
    }
    assert(map_of(changed) =~= map_of(entries).insert(key, value));
}

/// A map from strings to values.  No key occurs twice in it, and the entries
/// stay in the order in which their keys were first inserted.
#[derive(Debug, PartialEq, Eq)]
pub struct StringMap<V> {
    entries: Vec<(String, V)>,
}

impl<V> StringMap<V> {
    /// The entries in their order, the keys as texts.
    pub closed spec fn entries(&self) -> Seq<Pair<V>> {
        self.entries@.map_values(|entry: (String, V)| (entry.0@, entry.1))
    }

    #[verifier::type_invariant]
    spec fn distinct(&self) -> bool {
        distinct_keys(self.entries())
    }

    /// The empty map.
    pub fn new() -> (r: Self)
        ensures
            r.entries() == Seq::<Pair<V>>::empty(),
            r@ == Map::<Seq<char>, V>::empty(),
    {
        let map = StringMap { entries: Vec::new() };
        assert(map.entries() =~= Seq::<Pair<V>>::empty());
        assert(map_of(map.entries()) =~= Map::<Seq<char>, V>::empty());
        map
    }

    /// The number of entries.  No key occurs twice among them.
    pub fn len(&self) -> (r: usize)
        ensures
            r == self.entries().len(),
            distinct_keys(self.entries()),
    {
        proof {
            use_type_invariant(self);
        }
        self.entries.len()
    }

    /// Whether the map has no entry.
    pub fn is_empty(&self) -> (r: bool)
        ensures
            r == (self.entries().len() == 0),
    {
        self.entries.len() == 0
    }

    /// The place of the entry for `key`, if there is one.
    fn position(&self, key: &str) -> (r: Option<usize>)
        ensures
            match r {
                Some(i) => i < self.entries().len() && self.entries()[i as int].0 == key@,
                None => !has_key(self.entries(), key@),
            },
    {
        let wanted = key.to_owned();
        let mut i: usize = 0;
        while i < self.entries.len()
            invariant
                i <= self.entries.len(),
                wanted@ == key@,
                forall|j: int| 0 <= j < i ==> (#[trigger] self.entries()[j]).0 != key@,
            decreases self.entries.len() - i,
        {
            if self.entries[i].0 == wanted {
                return Some(i);
            }
            i += 1;
        }
        None
    }

    /// Whether the map has an entry for `key`.
    pub fn contains_key(&self, key: &str) -> (r: bool)
        ensures
            r == self@.contains_key(key@),
    {
        self.position(key).is_some()
    }

    /// The value that is stored for `key`, if there is one.
    pub fn get(&self, key: &str) -> (r: Option<&V>)
        ensures
            match r {
                Some(value) => self@.contains_key(key@) && *value == self@[key@],
                None => !self@.contains_key(key@),
            },
    {
        proof {
            use_type_invariant(self);
        }
        match self.position(key) {
            Some(i) => {
                proof {
                    lemma_map_of_entry(self.entries(), i as int);
                }
                Some(&self.entries[i].1)
            },
            None => None,
        }
    }

    /// Stores `value` for `key`.  Where the map has an entry for the key, the
    /// new value takes the place of the old one, which is returned; else a
    /// new entry is added after the others.
    pub fn insert(&mut self, key: String, value: V) -> (r: Option<V>)
        ensures
            final(self)@ == old(self)@.insert(key@, value),
            match r {
                Some(previous) => old(self)@.contains_key(key@) && previous == old(self)@[key@]
                    && final(self).entries() == old(self).entries().update(
                    old(self).index_of(key@),
                    (key@, value),
                ),
                None => !old(self)@.contains_key(key@) && final(self).entries() == old(
                    self,
                ).entries().push((key@, value)),
            },
    {
        proof {
            use_type_invariant(&*self);
        }
        let ghost before = self.entries();
        match self.position(key.as_str()) {
            Some(i) => {
                let mut entry = (key, value);
                let mut entries: Vec<(String, V)> = Vec::new();
                core::mem::swap(&mut entries, &mut self.entries);
                entries.push(entry);
                let previous = entries.swap_remove(i);
                proof {
                    lemma_map_of_entry(before, i as int);
                    lemma_map_of_update(before, i as int, value);
                    assert(before.update(i as int, (before[i as int].0, value)) =~= entries@.map_values(
                        |entry: (String, V)| (entry.0@, entry.1),
                    ));
                    assert(old(self).index_of(key@) == i);
                }
                // The invariant holds of the entries before they go back in.
                let map = StringMap { entries };
                *self = map;
                Some(previous.1)
            },
            None => {
                let mut entries: Vec<(String, V)> = Vec::new();
                core::mem::swap(&mut entries, &mut self.entries);
                entries.push((key, value));
                proof {
                    lemma_map_of_push(before, key@, value);
                    assert(before.push((key@, value)) =~= entries@.map_values(
                        |entry: (String, V)| (entry.0@, entry.1),
                    ));
                }
                let map = StringMap { entries };
                *self = map;
                None
            },
        }
    }

    /// The place of the entry for `key` among the entries.
    pub open spec fn index_of(&self, key: Seq<char>) -> int {
        choose|i: int| 0 <= i < self.entries().len() && (#[trigger] self.entries()[i]).0 == key
    }

    /// The key of the entry at place `i`.
    pub fn key_at(&self, i: usize) -> (r: &str)
        requires
            i < self.entries().len(),
        ensures
            r@ == self.entries()[i as int].0,
    {
        self.entries[i].0.as_str()
    }

    /// The value of the entry at place `i`.
    pub fn value_at(&self, i: usize) -> (r: &V)
        requires
            i < self.entries().len(),
        ensures
            *r == self.entries()[i as int].1,
            self@.contains_key(self.entries()[i as int].0),
            self@[self.entries()[i as int].0] == *r,
    {
        proof {
            use_type_invariant(self);
            lemma_map_of_entry(self.entries(), i as int);
        }
        &self.entries[i].1
    }
}

impl<V> View for StringMap<V> {
    type V = Map<Seq<char>, V>;

    open spec fn view(&self) -> Map<Seq<char>, V> {
        map_of(self.entries())
    }
}

} // verus!
