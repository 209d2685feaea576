//! A small map keyed by strings, kept as a list of entries with distinct keys.

use vstd::prelude::*;

verus! {

/// A finite map from strings to values of `V`.
///
/// The entries keep the order in which their keys were first inserted; no key
/// occurs twice.
#[derive(Debug)]
pub struct StringMap<V> {
    entries: Vec<(String, V)>,
}

/// Whether no two entries of `entries` have the same key.
spec fn distinct_keys<V>(entries: Seq<(String, V)>) -> bool {
    forall|i: int, j: int|
        0 <= i < entries.len() && 0 <= j < entries.len() && i != j ==> #[trigger] entries[i].0@
            != #[trigger] entries[j].0@
}

/// Whether some entry of `entries` has the key `key`.
spec fn has_key<V>(entries: Seq<(String, V)>, key: Seq<char>) -> bool {
    exists|i: int| 0 <= i < entries.len() && #[trigger] entries[i].0@ == key
}

/// The index of an entry of `entries` with the key `key`.
spec fn index_of_key<V>(entries: Seq<(String, V)>, key: Seq<char>) -> int {
    choose|i: int| 0 <= i < entries.len() && #[trigger] entries[i].0@ == key
}

/// The map that a list of entries with distinct keys stands for.
spec fn map_of<V>(entries: Seq<(String, V)>) -> Map<Seq<char>, V> {
    Map::new(
        |key: Seq<char>| has_key(entries, key),
        |key: Seq<char>| entries[index_of_key(entries, key)].1,
    )
}

/// With distinct keys, the entry at `i` is the one that the map holds for its key.
proof fn lemma_entry_in_map<V>(entries: Seq<(String, V)>, i: int)
    requires
        distinct_keys(entries),
        0 <= i < entries.len(),
    ensures
        map_of(entries).contains_key(entries[i].0@),
        map_of(entries)[entries[i].0@] == entries[i].1,
{
    let key = entries[i].0@;
    assert(has_key(entries, key));
    let j = index_of_key(entries, key);
    assert(entries[j].0@ == key);
    assert(i == j);
}

impl<V> View for StringMap<V> {
    type V = Map<Seq<char>, V>;

    closed spec fn view(&self) -> Map<Seq<char>, V> {
        map_of(self.entries@)
    }
}

impl<V> StringMap<V> {
    #[verifier::type_invariant]
    spec fn keys_are_distinct(&self) -> bool {
        distinct_keys(self.entries@)
    }

    /// A map without entries.
    pub fn new() -> (m: Self)
        ensures
            m@ == Map::<Seq<char>, V>::empty(),
    {
        let m = StringMap { entries: Vec::new() };
        assert(m@ =~= Map::<Seq<char>, V>::empty());
        m
    }

    /// The position of the entry with the key `key`, if there is one.
    fn find(&self, key: &str) -> (r: Option<usize>)
        ensures
            match r {
                Some(i) => i < self.entries@.len() && self.entries@[i as int].0@ == key@,
                None => !has_key(self.entries@, key@),
            },
    {
        let wanted = key.to_owned();
        let mut i: usize = 0;
        while i < self.entries.len()
            invariant
                i <= self.entries@.len(),
                wanted@ == key@,
                forall|j: int| 0 <= j < i ==> (#[trigger] self.entries@[j]).0@ != key@,
            decreases self.entries@.len() - i,
        {
            if self.entries[i].0 == wanted {
                return Some(i);
            }
            i = i + 1;
        }
        None
    }

    /// Tells whether the map has an entry for `key`.
    pub fn contains_key(&self, key: &str) -> (r: bool)
        ensures
            r == self@.contains_key(key@),
    {
        self.find(key).is_some()
    }

    /// The value stored for `key`, if there is one.
    pub fn get(&self, key: &str) -> (r: Option<&V>)
        ensures
            match r {
                Some(v) => self@.contains_key(key@) && *v == self@[key@],
                None => !self@.contains_key(key@),
            },
    {
        proof {
            use_type_invariant(self);
        }
        match self.find(key) {
            Some(i) => {
                proof {
                    lemma_entry_in_map(self.entries@, i as int);
                }
                Some(&self.entries[i].1)
            },
            None => None,
        }
    }

    /// Stores `value` for `key`, in place of the value that was stored for it, if any.
    pub fn insert(&mut self, key: String, value: V)
        ensures
            final(self)@ == old(self)@.insert(key@, value),
    {
        proof {
            use_type_invariant(&*self);
        }
        let found = self.find(key.as_str());
        let mut taken = StringMap { entries: Vec::new() };
        core::mem::swap(self, &mut taken);
        let mut entries = taken.entries;
        let ghost before = entries@;
        match found {
            Some(i) => {
                entries.set(i, (key, value));
                let ghost after = entries@;
                assert(distinct_keys(after)) by {
                    assert forall|a: int, b: int|
                        0 <= a < after.len() && 0 <= b < after.len() && a != b implies #[trigger] after[a].0@
                        != #[trigger] after[b].0@ by {
                        assert(after[a].0@ == before[a].0@);
                        assert(after[b].0@ == before[b].0@);
                    }
                }
                assert(map_of(after) =~= map_of(before).insert(key@, value)) by {
                    assert forall|k: Seq<char>| has_key(after, k) <==> has_key(before, k) || k
                        == key@ by {
                        if has_key(after, k) {
                            let a = index_of_key(after, k);
                            assert(before[a].0@ == after[a].0@);
                        }
                        if has_key(before, k) {
                            let b = index_of_key(before, k);
                            assert(after[b].0@ == before[b].0@);
                        }
                        if k == key@ {
                            assert(after[i as int].0@ == k);
                        }
                    }
                    assert forall|k: Seq<char>| has_key(after, k) implies map_of(after)[k]
                        == map_of(before).insert(key@, value)[k] by {
                        let a = index_of_key(after, k);
                        lemma_entry_in_map(after, a);
                        if a != i {
                            assert(after[a] == before[a]);
                            lemma_entry_in_map(before, a);
                        }
                    }
                }
            },
            None => {
                entries.push((key, value));
                let ghost after = entries@;
                assert(distinct_keys(after)) by {
                    assert forall|a: int, b: int|
                        0 <= a < after.len() && 0 <= b < after.len() && a != b implies #[trigger] after[a].0@
                        != #[trigger] after[b].0@ by {
                        if a < before.len() {
                            assert(after[a] == before[a]);
                        }
                        if b < before.len() {
                            assert(after[b] == before[b]);
                        }
                    }
                }
                assert(map_of(after) =~= map_of(before).insert(key@, value)) by {
                    assert forall|k: Seq<char>| has_key(after, k) <==> has_key(before, k) || k
                        == key@ by {
                        if has_key(after, k) {
                            let a = index_of_key(after, k);
                            if a < before.len() {
                                assert(before[a].0@ == after[a].0@);
                            }
                        }
                        if has_key(before, k) {
                            let b = index_of_key(before, k);
                            assert(after[b].0@ == before[b].0@);
                        }
                        if k == key@ {
                            assert(after[before.len() as int].0@ == k);
                        }
                    }
                    assert forall|k: Seq<char>| has_key(after, k) implies map_of(after)[k]
                        == map_of(before).insert(key@, value)[k] by {
                        let a = index_of_key(after, k);
                        lemma_entry_in_map(after, a);
                        if a < before.len() {
                            assert(after[a] == before[a]);
                            lemma_entry_in_map(before, a);
                        }
                    }
                }
            },
        }
        *self = StringMap { entries };
    }
}

} // verus!
