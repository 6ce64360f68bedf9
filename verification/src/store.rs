//! The in-memory slug-to-content table.
//!
//! The table is the sole source of truth for stored pastes: a mapping from
//! slug to content, modelled as a `Map<Seq<char>, Seq<char>>`. It is kept as
//! a vector of pairs whose keys are pairwise distinct, so a lookup has
//! exactly one answer.

use vstd::prelude::*;

verus! {

/// The mapping that a sequence of key/value pairs denotes. A later pair
/// would shadow an earlier one with the same key; the store never holds two
/// pairs with the same key, so the order does not matter.
pub(crate) open spec fn map_of(entries: Seq<(String, String)>) -> Map<Seq<char>, Seq<char>>
    decreases entries.len(),
{
    if entries.len() == 0 {
        Map::empty()
    } else {
        map_of(entries.drop_last()).insert(entries.last().0@, entries.last().1@)
    }
}

/// No two pairs carry the same key.
pub(crate) open spec fn keys_distinct(entries: Seq<(String, String)>) -> bool {
    forall|i: int, j: int|
        0 <= i < j < entries.len() ==> entries[i].0@ != entries[j].0@
}

/// A key is in the denoted mapping exactly when some pair carries it.
proof fn lemma_map_of_contains(entries: Seq<(String, String)>, k: Seq<char>)
    ensures
        map_of(entries).contains_key(k) <==> exists|i: int|
            0 <= i < entries.len() && entries[i].0@ == k,
    decreases entries.len(),
{
    if entries.len() > 0 {
        let prefix = entries.drop_last();
        let last = entries.len() - 1;
        lemma_map_of_contains(prefix, k);
        if entries[last].0@ == k {
            assert(0 <= last < entries.len() && entries[last].0@ == k);
        } else {
            if map_of(entries).contains_key(k) {
                let i = choose|i: int| 0 <= i < prefix.len() && prefix[i].0@ == k;
                assert(entries[i].0@ == k);
            }
            if exists|i: int| 0 <= i < entries.len() && entries[i].0@ == k {
                let i = choose|i: int| 0 <= i < entries.len() && entries[i].0@ == k;
                assert(prefix[i].0@ == k);
            }
        }
    }
}

/// With distinct keys, each pair's key maps to that pair's value.
proof fn lemma_map_of_value(entries: Seq<(String, String)>, i: int)
    requires
        keys_distinct(entries),
        0 <= i < entries.len(),
    ensures
        map_of(entries).contains_key(entries[i].0@),
        map_of(entries)[entries[i].0@] == entries[i].1@,
    decreases entries.len(),
{
    let last = entries.len() - 1;
    if i < last {
        let prefix = entries.drop_last();
        assert(keys_distinct(prefix)) by {
            assert forall|a: int, b: int|
                0 <= a < b < prefix.len() implies prefix[a].0@ != prefix[b].0@ by {
                assert(prefix[a] == entries[a]);
                assert(prefix[b] == entries[b]);
            }
        }
        lemma_map_of_value(prefix, i);
        assert(entries[i].0@ != entries[last].0@);
    }
}

/// Appending a pair with a fresh key adds exactly that binding.
proof fn lemma_map_of_push(entries: Seq<(String, String)>, p: (String, String))
    ensures
        map_of(entries.push(p)) == map_of(entries).insert(p.0@, p.1@),
{
    assert(entries.push(p).drop_last() =~= entries);
    assert(entries.push(p).last() == p);
}

/// Appending a pair whose key is not yet bound keeps the keys distinct.
proof fn lemma_keys_distinct_push(entries: Seq<(String, String)>, p: (String, String))
    requires
        keys_distinct(entries),
        !map_of(entries).contains_key(p.0@),
    ensures
        keys_distinct(entries.push(p)),
{
    lemma_map_of_contains(entries, p.0@);
    let pushed = entries.push(p);
    assert forall|a: int, b: int|
        0 <= a < b < pushed.len() implies pushed[a].0@ != pushed[b].0@ by {
        if b == entries.len() {
            assert(pushed[a] == entries[a]);
            if entries[a].0@ == p.0@ {
                assert(0 <= a < entries.len() && entries[a].0@ == p.0@);
            }
        } else {
            assert(pushed[a] == entries[a]);
            assert(pushed[b] == entries[b]);
        }
    }
}

/// Removing a pair removes exactly its key's binding.
proof fn lemma_map_of_remove(entries: Seq<(String, String)>, i: int)
    requires
        keys_distinct(entries),
        0 <= i < entries.len(),
    ensures
        map_of(entries.remove(i)) == map_of(entries).remove(entries[i].0@),
    decreases entries.len(),
{
    let k = entries[i].0@;
    let last = entries.len() - 1;
    if i == last {
        assert(entries.remove(i) =~= entries.drop_last());
        lemma_map_of_contains(entries.drop_last(), k);
        if map_of(entries.drop_last()).contains_key(k) {
            let j = choose|j: int|
                0 <= j < entries.drop_last().len() && entries.drop_last()[j].0@ == k;
            assert(entries[j].0@ == k);
            assert(false);
        }
        assert(map_of(entries.remove(i)) =~= map_of(entries).remove(k));
    } else {
        let prefix = entries.drop_last();
        assert(keys_distinct(prefix)) by {
            assert forall|a: int, b: int|
                0 <= a < b < prefix.len() implies prefix[a].0@ != prefix[b].0@ by {
                assert(prefix[a] == entries[a]);
                assert(prefix[b] == entries[b]);
            }
        }
        assert(prefix[i] == entries[i]);
        lemma_map_of_remove(prefix, i);
        assert(entries.remove(i).drop_last() =~= prefix.remove(i));
        assert(entries.remove(i).last() == entries.last());
        assert(entries[i].0@ != entries[last].0@);
        assert(map_of(prefix).remove(k).insert(entries.last().0@, entries.last().1@) =~= map_of(
            prefix,
        ).insert(entries.last().0@, entries.last().1@).remove(k));
    }
}

/// Removing a pair keeps the keys distinct.
proof fn lemma_keys_distinct_remove(entries: Seq<(String, String)>, i: int)
    requires
        keys_distinct(entries),
        0 <= i < entries.len(),
    ensures
        keys_distinct(entries.remove(i)),
{
    let r = entries.remove(i);
    assert forall|a: int, b: int| 0 <= a < b < r.len() implies r[a].0@ != r[b].0@ by {
        let a0 = if a < i { a } else { a + 1 };
        let b0 = if b < i { b } else { b + 1 };
        assert(r[a] == entries[a0]);
        assert(r[b] == entries[b0]);
    }
}

/// The slug-to-content table. Its view is the denoted mapping; its
/// well-formedness is the key-distinctness invariant.
pub(crate) struct MemoryStore {
    entries: Vec<(String, String)>,
}

impl View for MemoryStore {
    type V = Map<Seq<char>, Seq<char>>;

    closed spec fn view(&self) -> Map<Seq<char>, Seq<char>> {
        map_of(self.entries@)
    }
}

impl MemoryStore {
    /// Keys are pairwise distinct. Established at construction and preserved
    /// by every operation.
    pub(crate) closed spec fn wf(&self) -> bool {
        keys_distinct(self.entries@)
    }

    /// An empty table.
    pub(crate) fn new() -> (s: Self)
        ensures
            s.wf(),
            s@ == Map::<Seq<char>, Seq<char>>::empty(),
    {
        MemoryStore { entries: Vec::new() }
    }

    /// The index of the pair carrying `key`, if any.
    fn find(&self, key: &String) -> (r: Option<usize>)
        ensures
            match r {
                Some(i) => i < self.entries@.len() && self.entries@[i as int].0@ == key@,
                None => forall|j: int|
                    0 <= j < self.entries@.len() ==> self.entries@[j].0@ != key@,
            },
    {
        let mut i: usize = 0;
        while i < self.entries.len()
            invariant
                i <= self.entries@.len(),
                forall|j: int| 0 <= j < i ==> self.entries@[j].0@ != key@,
            decreases self.entries@.len() - i,
        {
            if self.entries[i].0 == *key {
                return Some(i);
            }
            i += 1;
        }
        None
    }

    /// A copy of the content stored under `key`, or nothing when the key is
    /// not bound. Absence is a valid result, not an error.
    pub(crate) fn get(&self, key: &String) -> (r: Option<String>)
        requires
            self.wf(),
        ensures
            match r {
                Some(v) => self@.contains_key(key@) && v@ == self@[key@],
                None => !self@.contains_key(key@),
            },
    {
        match self.find(key) {
            Some(i) => {
                proof {
                    lemma_map_of_value(self.entries@, i as int);
                }
                Some(self.entries[i].1.clone())
            },
            None => {
                proof {
                    lemma_map_of_contains(self.entries@, key@);
                }
                None
            },
        }
    }

    /// Whether `key` is bound.
    pub(crate) fn contains(&self, key: &String) -> (b: bool)
        ensures
            b == self@.contains_key(key@),
    {
        proof {
            lemma_map_of_contains(self.entries@, key@);
        }
        match self.find(key) {
            Some(i) => {
                proof {
                    assert(0 <= i < self.entries@.len() && self.entries@[i as int].0@ == key@);
                }
                true
            },
            None => false,
        }
    }

    /// Binds a fresh `key` to `value`.
    pub(crate) fn insert(&mut self, key: String, value: String)
        requires
            old(self).wf(),
            !old(self)@.contains_key(key@),
        ensures
            final(self).wf(),
            final(self)@ == old(self)@.insert(key@, value@),
    {
        proof {
            lemma_keys_distinct_push(self.entries@, (key, value));
            lemma_map_of_push(self.entries@, (key, value));
        }
        self.entries.push((key, value));
    }

    /// Unbinds `key` if it is bound, and reports whether it was.
    pub(crate) fn remove(&mut self, key: &String) -> (present: bool)
        requires
            old(self).wf(),
        ensures
            final(self).wf(),
            final(self)@ == old(self)@.remove(key@),
            present == old(self)@.contains_key(key@),
    {
        proof {
            lemma_map_of_contains(self.entries@, key@);
        }
        match self.find(key) {
            Some(i) => {
                proof {
                    assert(0 <= i < self.entries@.len() && self.entries@[i as int].0@ == key@);
                    lemma_map_of_remove(self.entries@, i as int);
                    lemma_keys_distinct_remove(self.entries@, i as int);
                }
                let _ = self.entries.remove(i);
                true
            },
            None => {
                proof {
                    assert(map_of(self.entries@).remove(key@) =~= map_of(self.entries@));
                }
                false
            },
        }
    }
}

} // verus!
