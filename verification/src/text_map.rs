//! A map from texts to values, kept as a list without repeated keys.
use vstd::prelude::*;

use crate::text::same_text;

verus! {

/// A map from texts to values.
#[derive(Debug)]
pub struct TextMap<V> {
    entries: Vec<(String, V)>,
}

/// Whether an entry has the key.
pub open spec fn has_key<V>(entries: Seq<(String, V)>, key: Seq<char>) -> bool {
    exists|i: int| 0 <= i < entries.len() && (#[trigger] entries[i]).0@ == key
}

/// The place of an entry with the key.
pub open spec fn key_index<V>(entries: Seq<(String, V)>, key: Seq<char>) -> int {
    choose|i: int| 0 <= i < entries.len() && (#[trigger] entries[i]).0@ == key
}

/// No two entries have the same key.
pub open spec fn distinct_keys<V>(entries: Seq<(String, V)>) -> bool {
    forall|i: int, j: int|
        0 <= i < j < entries.len() ==> (#[trigger] entries[i]).0@ != (#[trigger] entries[j]).0@
}

/// The map that a list of entries stands for.
pub open spec fn entry_map<V>(entries: Seq<(String, V)>) -> Map<Seq<char>, V> {
    Map::new(|key: Seq<char>| has_key(entries, key), |key: Seq<char>| entries[key_index(entries, key)].1)
}

impl<V> View for TextMap<V> {
    type V = Map<Seq<char>, V>;

    closed spec fn view(&self) -> Map<Seq<char>, V> {
        entry_map(self.entries@)
    }
}

impl<V> TextMap<V> {
    /// No key occurs twice.
    #[verifier::type_invariant]
    spec fn keys_are_distinct(self) -> bool {
        distinct_keys(self.entries@)
    }

    /// The empty map.
    pub fn new() -> (map: TextMap<V>)
        ensures
            map@ == Map::<Seq<char>, V>::empty(),
    {
        let map: TextMap<V> = TextMap { entries: Vec::new() };
        assert(map@ =~= Map::<Seq<char>, V>::empty());
        map
    }

    /// The place of the key.
    fn position(&self, key: &str) -> (place: Option<usize>)
        ensures
            match place {
                Some(i) => i < self.entries@.len() && self.entries@[i as int].0@ == key@,
                None => !has_key(self.entries@, key@),
            },
    {
        let mut i: usize = 0;
        while i < self.entries.len()
            invariant
                i <= self.entries@.len(),
                forall|j: int| 0 <= j < i ==> (#[trigger] self.entries@[j]).0@ != key@,
            decreases self.entries.len() - i,
        {
            if same_text(self.entries[i].0.as_str(), key) {
                return Some(i);
            }
            i += 1;
        }
        None
    }

    /// The value of the key.
    pub fn get(&self, key: &str) -> (value: Option<&V>)
        ensures
            match value {
                Some(v) => self@.contains_key(key@) && *v == self@[key@],
                None => !self@.contains_key(key@),
            },
    {
        proof {
            use_type_invariant(self);
        }
        match self.position(key) {
            Some(i) => {
                proof {
                    lemma_key_index(self.entries@, i as int);
                }
                Some(&self.entries[i].1)
            },
            None => None,
        }
    }

    /// Sets the value of the key, whether it has one or not.
    pub fn insert(&mut self, key: String, value: V)
        ensures
            final(self)@ == old(self)@.insert(key@, value),
    {
        proof {
            use_type_invariant(&*self);
        }
        let ghost before = self.entries@;
        match self.position(key.as_str()) {
            Some(i) => {
                let mut entries: Vec<(String, V)> = Vec::new();
                core::mem::swap(&mut entries, &mut self.entries);
                entries.set(i, (key, value));
                proof {
                    lemma_entry_replaced(before, entries@, i as int);
                }
                self.entries = entries;
            },
            None => {
                let mut entries: Vec<(String, V)> = Vec::new();
                core::mem::swap(&mut entries, &mut self.entries);
                entries.push((key, value));
                proof {
                    lemma_entry_added(before, entries@);
                }
                self.entries = entries;
            },
        }
    }

    /// The number of keys.
    pub fn len(&self) -> (n: usize)
        ensures
            n == self@.dom().len(),
            self@.dom().finite(),
    {
        proof {
            use_type_invariant(self);
            lemma_key_count(self.entries@);
        }
        self.entries.len()
    }

    /// The keys and their values, each key once.
    pub fn into_entries(self) -> (entries: Vec<(String, V)>)
        ensures
            distinct_keys(entries@),
            entry_map(entries@) == self@,
    {
        proof {
            use_type_invariant(&self);
        }
        self.entries
    }
}

proof fn lemma_key_index<V>(entries: Seq<(String, V)>, i: int)
    requires
        distinct_keys(entries),
        0 <= i < entries.len(),
    ensures
        has_key(entries, entries[i].0@),
        key_index(entries, entries[i].0@) == i,
        entry_map(entries)[entries[i].0@] == entries[i].1,
{
    let k = key_index(entries, entries[i].0@);
    assert(entries[i].0@ == entries[i].0@);
    assert(0 <= k < entries.len() && entries[k].0@ == entries[i].0@);
}

proof fn lemma_entry_replaced<V>(before: Seq<(String, V)>, after: Seq<(String, V)>, i: int)
    requires
        distinct_keys(before),
        0 <= i < before.len(),
        after == before.update(i, after[i]),
        after[i].0@ == before[i].0@,
    ensures
        distinct_keys(after),
        entry_map(after) == entry_map(before).insert(after[i].0@, after[i].1),
{
    assert forall|j: int| 0 <= j < before.len() implies (#[trigger] after[j]).0@ == before[j].0@ by {}
    assert(distinct_keys(after)) by {
        assert forall|j: int, k: int| 0 <= j < k < after.len() implies (#[trigger] after[j]).0@ != (
        #[trigger] after[k]).0@ by {
            assert(before[j].0@ != before[k].0@);
        }
    }
    let left = entry_map(after);
    let right = entry_map(before).insert(after[i].0@, after[i].1);
    assert forall|key: Seq<char>| left.contains_key(key) <==> right.contains_key(key) by {
        if left.contains_key(key) {
            let j = key_index(after, key);
            assert(before[j].0@ == key);
        }
        if right.contains_key(key) && key != after[i].0@ {
            let j = key_index(before, key);
            assert(after[j].0@ == key);
        }
        if key == after[i].0@ {
            assert(after[i].0@ == key);
        }
    }
    assert forall|key: Seq<char>| left.contains_key(key) implies left[key] == right[key] by {
        let j = key_index(after, key);
        lemma_key_index(after, j);
        lemma_key_index(before, j);
        lemma_key_index(after, i);
    }
    assert(left =~= right);
}

proof fn lemma_entry_added<V>(before: Seq<(String, V)>, after: Seq<(String, V)>)
    requires
        distinct_keys(before),
        after == before.push(after.last()),
        after.len() > 0,
        !has_key(before, after.last().0@),
    ensures
        distinct_keys(after),
        entry_map(after) == entry_map(before).insert(after.last().0@, after.last().1),
{
    let n = before.len() as int;
    assert(after[n] == after.last());
    assert forall|j: int| 0 <= j < n implies #[trigger] after[j] == before[j] by {}
    assert(distinct_keys(after)) by {
        assert forall|j: int, k: int| 0 <= j < k < after.len() implies (#[trigger] after[j]).0@ != (
        #[trigger] after[k]).0@ by {
            assert(after[j] == before[j]);
            if k < n {
                assert(after[k] == before[k]);
            }
        }
    }
    let left = entry_map(after);
    let right = entry_map(before).insert(after.last().0@, after.last().1);
    assert forall|key: Seq<char>| left.contains_key(key) <==> right.contains_key(key) by {
        if left.contains_key(key) {
            let j = key_index(after, key);
            assert(j < n ==> before[j].0@ == key);
        }
        if right.contains_key(key) {
            if key == after.last().0@ {
                assert(after[n].0@ == key);
            } else {
                let j = key_index(before, key);
                assert(after[j].0@ == key);
            }
        }
    }
    assert forall|key: Seq<char>| left.contains_key(key) implies left[key] == right[key] by {
        let j = key_index(after, key);
        lemma_key_index(after, j);
        if j < n {
            assert(before[j].0@ == key);
            lemma_key_index(before, j);
        }
    }
    assert(left =~= right);
}

proof fn lemma_key_count<V>(entries: Seq<(String, V)>)
    requires
        distinct_keys(entries),
    ensures
        entry_map(entries).dom().finite(),
        entry_map(entries).dom().len() == entries.len(),
    decreases entries.len(),
{
    if entries.len() == 0 {
        assert(entry_map(entries).dom() =~= Set::empty());
    } else {
        let before = entries.drop_last();
        lemma_key_count(before);
        assert(entries == before.push(entries.last()));
        assert(!has_key(before, entries.last().0@)) by {
            if has_key(before, entries.last().0@) {
                let j = key_index(before, entries.last().0@);
                assert(before[j] == entries[j]);
                assert(entries[j].0@ != entries[entries.len() - 1].0@);
            }
        }
        lemma_entry_added(before, entries);
        assert(entry_map(entries).dom() =~= entry_map(before).dom().insert(entries.last().0@));
    }
}

} // verus!
