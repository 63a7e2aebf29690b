//! A map from public keys, written as strings, to configuration values.

use vstd::prelude::*;

verus! {

/// Whether one of `entries` is for `key`.
pub open spec fn has_key<V>(entries: Seq<(String, V)>, key: Seq<char>) -> bool {
    exists|i: int| 0 <= i < entries.len() && (#[trigger] entries[i]).0@ == key
}

/// The position of `key` among `entries`, for a key that is there.
pub open spec fn position<V>(entries: Seq<(String, V)>, key: Seq<char>) -> int {
    choose|i: int| 0 <= i < entries.len() && (#[trigger] entries[i]).0@ == key
}

/// No key stands in `entries` twice.
pub open spec fn keys_distinct<V>(entries: Seq<(String, V)>) -> bool {
    forall|i: int, j: int|
        #![trigger entries[i], entries[j]]
        0 <= i < j < entries.len() ==> entries[i].0@ != entries[j].0@
}

/// The map that `entries` spell out, each value taken by its view.
pub open spec fn entries_view<V: View>(entries: Seq<(String, V)>) -> Map<Seq<char>, V::V> {
    Map::new(
        |key: Seq<char>| has_key(entries, key),
        |key: Seq<char>| entries[position(entries, key)].1@,
    )
}

/// A map whose keys are strings. A key has at most one value.
#[derive(Debug)]
pub struct ConfigMap<V> {
    entries: Vec<(String, V)>,
}

impl<V> ConfigMap<V> {
    #[verifier::type_invariant]
    spec fn well_formed(self) -> bool {
        keys_distinct(self.entries@)
    }
}

impl<V: View> View for ConfigMap<V> {
    type V = Map<Seq<char>, V::V>;

    closed spec fn view(&self) -> Map<Seq<char>, V::V> {
        entries_view(self.entries@)
    }
}

/// Each entry of distinct keys is in the map that the entries spell out, and
/// what the map holds under its key is its value.
pub proof fn lemma_entry_in_view<V: View>(entries: Seq<(String, V)>, i: int)
    requires
        keys_distinct(entries),
        0 <= i < entries.len(),
    ensures
        entries_view(entries).contains_key(entries[i].0@),
        entries_view(entries)[entries[i].0@] == entries[i].1@,
{
    let key = entries[i].0@;
    assert(has_key(entries, key));
    let found = position(entries, key);
    assert(0 <= found < entries.len() && entries[found].0@ == key);
}

/// The map that entries with distinct keys spell out has exactly their keys, and
/// under each the value that stands with it.
pub proof fn law_map_is_its_entries<V: View>(entries: Seq<(String, V)>, key: Seq<char>)
    requires
        forall|i: int, j: int|
            #![trigger entries[i], entries[j]]
            0 <= i < j < entries.len() ==> entries[i].0@ != entries[j].0@,
    ensures
        keys_distinct(entries),
        entries_view(entries).contains_key(key) <==> exists|i: int|
            0 <= i < entries.len() && (#[trigger] entries[i]).0@ == key,
        forall|i: int|
            0 <= i < entries.len() ==> entries_view(entries)[(#[trigger] entries[i]).0@]
                == entries[i].1@,
{
    assert forall|i: int| 0 <= i < entries.len() implies entries_view(
        entries,
    )[(#[trigger] entries[i]).0@] == entries[i].1@ by {
        lemma_entry_in_view(entries, i);
    }
}

/// Entries whose keys count as distinct are for different keys at different places.
pub proof fn law_distinct_keys_differ<V>(entries: Seq<(String, V)>, i: int, j: int)
    requires
        keys_distinct(entries),
        0 <= i < entries.len(),
        0 <= j < entries.len(),
        entries[i].0@ == entries[j].0@,
    ensures
        i == j,
{
}

/// An entry for a key that was not there adds that key to the map.
pub proof fn lemma_view_of_push<V: View>(entries: Seq<(String, V)>, entry: (String, V))
    requires
        keys_distinct(entries),
        !has_key(entries, entry.0@),
    ensures
        keys_distinct(entries.push(entry)),
        entries_view(entries.push(entry)) == entries_view(entries).insert(entry.0@, entry.1@),
{
    let pushed = entries.push(entry);
    let view = entries_view(pushed);
    let expected = entries_view(entries).insert(entry.0@, entry.1@);
    assert forall|i: int, j: int|
        #![trigger pushed[i], pushed[j]]
        0 <= i < j < pushed.len() implies pushed[i].0@ != pushed[j].0@ by {
        assert(pushed[i] == entries[i]);
        if j < entries.len() {
            assert(pushed[j] == entries[j]);
        }
    }
    assert forall|key: Seq<char>| view.contains_key(key) == expected.contains_key(key) by {
        if has_key(pushed, key) && key != entry.0@ {
            let i = position(pushed, key);
            assert(pushed[i] == entries[i]);
        }
        if has_key(entries, key) {
            let i = position(entries, key);
            assert(pushed[i] == entries[i]);
        }
        if key == entry.0@ {
            assert(pushed[entries.len() as int].0@ == key);
        }
    }
    assert forall|key: Seq<char>| view.contains_key(key) implies view[key] == expected[key] by {
        let i = position(pushed, key);
        lemma_entry_in_view(pushed, i);
        if i < entries.len() {
            assert(pushed[i] == entries[i]);
            lemma_entry_in_view(entries, i);
        }
    }
    assert(view =~= expected);
}

/// A new value at a place replaces what the map holds under that place's key.
proof fn lemma_view_of_update<V: View>(entries: Seq<(String, V)>, i: int, entry: (String, V))
    requires
        keys_distinct(entries),
        0 <= i < entries.len(),
        entry.0@ == entries[i].0@,
    ensures
        keys_distinct(entries.update(i, entry)),
        entries_view(entries.update(i, entry)) == entries_view(entries).insert(
            entry.0@,
            entry.1@,
        ),
{
    let updated = entries.update(i, entry);
    let view = entries_view(updated);
    let expected = entries_view(entries).insert(entry.0@, entry.1@);
    assert forall|j: int| 0 <= j < entries.len() implies (#[trigger] updated[j]).0@
        == entries[j].0@ by {}
    assert forall|key: Seq<char>| has_key(updated, key) == has_key(entries, key) by {
        if has_key(updated, key) {
            let j = position(updated, key);
            assert(updated[j].0@ == entries[j].0@);
        }
        if has_key(entries, key) {
            let j = position(entries, key);
            assert(updated[j].0@ == entries[j].0@);
        }
    }
    assert(has_key(entries, entry.0@));
    assert forall|key: Seq<char>| view.contains_key(key) implies view[key] == expected[key] by {
        let j = position(updated, key);
        lemma_entry_in_view(updated, j);
        lemma_entry_in_view(entries, j);
    }
    assert(view =~= expected);
}

impl<V: View> ConfigMap<V> {
    /// A map without entries.
    pub fn new() -> (map: Self)
        ensures
            map@ == Map::<Seq<char>, V::V>::empty(),
    {
        let map = ConfigMap { entries: Vec::new() };
        assert(map@ =~= Map::<Seq<char>, V::V>::empty());
        map
    }

    /// Whether the map has no entries.
    pub fn is_empty(&self) -> (empty: bool)
        ensures
            empty == (self@ == Map::<Seq<char>, V::V>::empty()),
    {
        proof {
            if self.entries@.len() == 0 {
                assert(self@ =~= Map::<Seq<char>, V::V>::empty());
            } else {
                assert(has_key(self.entries@, self.entries@[0].0@));
                assert(self@.contains_key(self.entries@[0].0@));
            }
        }
        self.entries.len() == 0
    }

    /// The place of `key` among the entries.
    fn find(&self, key: &String) -> (found: Option<usize>)
        ensures
            match found {
                Some(i) => i < self.entries@.len() && self.entries@[i as int].0@ == key@,
                None => !has_key(self.entries@, key@),
            },
    {
        let mut i: usize = 0;
        while i < self.entries.len()
            invariant
                i <= self.entries@.len(),
                forall|j: int| 0 <= j < i ==> (#[trigger] self.entries@[j]).0@ != key@,
            decreases self.entries@.len() - i,
        {
            if self.entries[i].0 == *key {
                return Some(i);
            }
            i += 1;
        }
        None
    }

    /// The value of `key`.
    pub fn get(&self, key: &String) -> (value: Option<&V>)
        ensures
            match value {
                Some(v) => self@.contains_key(key@) && v@ == self@[key@],
                None => !self@.contains_key(key@),
            },
    {
        proof {
            use_type_invariant(self);
        }
        match self.find(key) {
            Some(i) => {
                proof {
                    lemma_entry_in_view(self.entries@, i as int);
                }
                Some(&self.entries[i].1)
            },
            None => None,
        }
    }

    /// Gives `key` the value `value`, and hands back the value it had.
    pub fn insert(&mut self, key: String, value: V) -> (previous: Option<V>)
        ensures
            final(self)@ == old(self)@.insert(key@, value@),
            match previous {
                Some(v) => old(self)@.contains_key(key@) && v@ == old(self)@[key@],
                None => !old(self)@.contains_key(key@),
            },
    {
        proof {
            use_type_invariant(&*self);
        }
        let ghost before = self.entries@;
        match self.find(&key) {
            Some(i) => {
                let mut entries: Vec<(String, V)> = Vec::new();
                std::mem::swap(&mut entries, &mut self.entries);
                let mut slot = value;
                let entry = &mut entries[i];
                std::mem::swap(&mut entry.1, &mut slot);
                proof {
                    lemma_entry_in_view(before, i as int);
                    lemma_view_of_update(before, i as int, entries@[i as int]);
                    assert(entries@ =~= before.update(i as int, entries@[i as int]));
                }
                self.entries = entries;
                Some(slot)
            },
            None => {
                self.push_new(key, value);
                None
            },
        }
    }

    /// Adds an entry for a key that has none.
    pub(crate) fn push_new(&mut self, key: String, value: V)
        requires
            !old(self)@.contains_key(key@),
        ensures
            final(self)@ == old(self)@.insert(key@, value@),
    {
        proof {
            use_type_invariant(&*self);
            lemma_view_of_push(self.entries@, (key, value));
        }
        let mut entries: Vec<(String, V)> = Vec::new();
        std::mem::swap(&mut entries, &mut self.entries);
        entries.push((key, value));
        self.entries = entries;
    }

    /// The entries, each key with its value.
    pub fn into_entries(self) -> (entries: Vec<(String, V)>)
        ensures
            keys_distinct(entries@),
            self@ == entries_view(entries@),
    {
        proof {
            use_type_invariant(&self);
        }
        self.entries
    }
}

impl<V: View> Default for ConfigMap<V> {
    /// A map without entries.
    fn default() -> (map: Self)
        ensures
            map@ == Map::<Seq<char>, V::V>::empty(),
    {
        Self::new()
    }
}

/// A value type whose clones have the view of what they were cloned from.
pub open spec fn clone_keeps_view<V: View + Clone>() -> bool {
    forall|value: V, copy: V| #[trigger] cloned(value, copy) ==> copy@ == value@
}

impl<V: View + Clone> Clone for ConfigMap<V> {
    fn clone(&self) -> (copy: Self)
        ensures
            clone_keeps_view::<V>() ==> copy@ == self@,
    {
        proof {
            use_type_invariant(self);
        }
        let mut entries: Vec<(String, V)> = Vec::new();
        let mut i: usize = 0;
        while i < self.entries.len()
            invariant
                i <= self.entries@.len(),
                entries@.len() == i,
                forall|j: int|
                    0 <= j < i ==> (#[trigger] entries@[j]).0 == self.entries@[j].0 && cloned(
                        self.entries@[j].1,
                        entries@[j].1,
                    ),
            decreases self.entries@.len() - i,
        {
            entries.push((self.entries[i].0.clone(), self.entries[i].1.clone()));
            i += 1;
        }
        let ghost original = self.entries@;
        assert(keys_distinct(entries@)) by {
            assert forall|j: int, k: int|
                #![trigger entries@[j], entries@[k]]
                0 <= j < k < entries@.len() implies entries@[j].0@ != entries@[k].0@ by {
                assert(original[j].0@ != original[k].0@);
            }
        }
        let copy = ConfigMap { entries };
        proof {
            if clone_keeps_view::<V>() {
                assert forall|key: Seq<char>| has_key(copy.entries@, key) == has_key(original, key) by {
                    if has_key(copy.entries@, key) {
                        let j = position(copy.entries@, key);
                        assert(original[j].0@ == key);
                    }
                    if has_key(original, key) {
                        let j = position(original, key);
                        assert(copy.entries@[j].0@ == key);
                    }
                }
                assert forall|key: Seq<char>| copy@.contains_key(key) implies copy@[key]
                    == self@[key] by {
                    let j = position(copy.entries@, key);
                    lemma_entry_in_view(copy.entries@, j);
                    lemma_entry_in_view(original, j);
                }
                assert(copy@ =~= self@);
            }
        }
        copy
    }
}

} // verus!
