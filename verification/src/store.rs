//! The store: a finite mapping from keys to values.

use vstd::prelude::*;

verus! {

/// One key with the value that it currently has.
#[derive(Debug)]
struct Entry {
    key: String,
    value: String,
}

/// The in-memory store. Its view is the mapping from each key that was ever
/// inserted or updated to the value that it was given last.
#[derive(Debug)]
pub struct Database {
    entries: Vec<Entry>,
}

/// No key stands in two entries.
spec fn distinct_keys(entries: Seq<Entry>) -> bool {
    forall|i: int, j: int|
        0 <= i < j < entries.len() ==> entries[i].key@ != entries[j].key@
}

/// Whether some entry has the key `k`.
spec fn has_key(entries: Seq<Entry>, k: Seq<char>) -> bool {
    exists|i: int| 0 <= i < entries.len() && #[trigger] entries[i].key@ == k
}

/// The index of an entry with the key `k`.
spec fn index_of(entries: Seq<Entry>, k: Seq<char>) -> int {
    choose|i: int| 0 <= i < entries.len() && #[trigger] entries[i].key@ == k
}

/// The mapping that a list of entries stands for.
spec fn mapping(entries: Seq<Entry>) -> Map<Seq<char>, Seq<char>> {
    Map::new(|k: Seq<char>| has_key(entries, k), |k: Seq<char>| entries[index_of(entries, k)].value@)
}

/// With distinct keys, each entry is what the mapping holds for its key.
proof fn lemma_entry_is_mapped(entries: Seq<Entry>, i: int)
    requires
        distinct_keys(entries),
        0 <= i < entries.len(),
    ensures
        mapping(entries).contains_key(entries[i].key@),
        mapping(entries)[entries[i].key@] == entries[i].value@,
        index_of(entries, entries[i].key@) == i,
{
    let k = entries[i].key@;
    assert(has_key(entries, k));
    let j = index_of(entries, k);
    assert(0 <= j < entries.len() && entries[j].key@ == k);
    if j < i {
        assert(entries[j].key@ != entries[i].key@);
    } else if i < j {
        assert(entries[i].key@ != entries[j].key@);
    }
}

/// Putting `e` in the place of an entry with the same key maps that key to
/// the value of `e` and leaves every other key as it was.
proof fn lemma_replace(entries: Seq<Entry>, i: int, e: Entry)
    requires
        distinct_keys(entries),
        0 <= i < entries.len(),
        entries[i].key@ == e.key@,
    ensures
        distinct_keys(entries.update(i, e)),
        mapping(entries.update(i, e)) == mapping(entries).insert(e.key@, e.value@),
{
    let after = entries.update(i, e);
    assert(distinct_keys(after)) by {
        assert forall|a: int, b: int| 0 <= a < b < after.len() implies after[a].key@
            != after[b].key@ by {
            assert(after[a].key@ == entries[a].key@);
            assert(after[b].key@ == entries[b].key@);
        }
    }
    let want = mapping(entries).insert(e.key@, e.value@);
    assert forall|k: Seq<char>| mapping(after).contains_key(k) <==> want.contains_key(k) by {
        if has_key(after, k) {
            let j = index_of(after, k);
            assert(entries[j].key@ == k);
        }
        if has_key(entries, k) {
            let j = index_of(entries, k);
            assert(after[j].key@ == k);
        }
        if k == e.key@ {
            assert(after[i].key@ == k);
        }
    }
    assert forall|k: Seq<char>| mapping(after).contains_key(k) implies mapping(after)[k]
        == want[k] by {
        let j = index_of(after, k);
        lemma_entry_is_mapped(after, j);
        if j != i {
            assert(entries[j].key@ == k);
            lemma_entry_is_mapped(entries, j);
        }
    }
    assert(mapping(after) =~= want);
}

/// Adding an entry whose key no entry has maps that key to its value and
/// leaves every other key as it was.
proof fn lemma_append(entries: Seq<Entry>, e: Entry)
    requires
        distinct_keys(entries),
        !has_key(entries, e.key@),
    ensures
        distinct_keys(entries.push(e)),
        mapping(entries.push(e)) == mapping(entries).insert(e.key@, e.value@),
{
    let after = entries.push(e);
    let n = entries.len() as int;
    assert(distinct_keys(after)) by {
        assert forall|a: int, b: int| 0 <= a < b < after.len() implies after[a].key@
            != after[b].key@ by {
            assert(after[a].key@ == entries[a].key@);
            if b < n {
                assert(after[b].key@ == entries[b].key@);
            }
        }
    }
    let want = mapping(entries).insert(e.key@, e.value@);
    assert forall|k: Seq<char>| mapping(after).contains_key(k) <==> want.contains_key(k) by {
        if has_key(after, k) {
            let j = index_of(after, k);
            if j < n {
                assert(entries[j].key@ == k);
            }
        }
        if has_key(entries, k) {
            let j = index_of(entries, k);
            assert(after[j].key@ == k);
        }
        if k == e.key@ {
            assert(after[n].key@ == k);
        }
    }
    assert forall|k: Seq<char>| mapping(after).contains_key(k) implies mapping(after)[k]
        == want[k] by {
        let j = index_of(after, k);
        lemma_entry_is_mapped(after, j);
        if j < n {
            assert(entries[j].key@ == k);
            lemma_entry_is_mapped(entries, j);
        }
    }
    assert(mapping(after) =~= want);
}

impl Database {
    #[verifier::type_invariant]
    spec fn keys_are_distinct(&self) -> bool {
        distinct_keys(self.entries@)
    }

    /// The mapping that the store holds.
    pub closed spec fn view(&self) -> Map<Seq<char>, Seq<char>> {
        mapping(self.entries@)
    }

    /// A store without entries.
    pub fn new() -> (db: Database)
        ensures
            db@ == Map::<Seq<char>, Seq<char>>::empty(),
    {
        let db = Database { entries: Vec::new() };
        proof {
            assert(db@ =~= Map::<Seq<char>, Seq<char>>::empty());
        }
        db
    }

    /// The place of the entry with the key `key`, if there is one.
    fn position(&self, key: &String) -> (at: Option<usize>)
        ensures
            match at {
                Some(i) => i < self.entries@.len() && self.entries@[i as int].key@ == key@,
                None => !has_key(self.entries@, key@),
            },
    {
        let mut i: usize = 0;
        while i < self.entries.len()
            invariant
                i <= self.entries@.len(),
                forall|j: int| 0 <= j < i ==> self.entries@[j].key@ != key@,
            decreases self.entries@.len() - i,
        {
            if self.entries[i].key == *key {
                return Some(i);
            }
            i += 1;
        }
        None
    }

    /// Maps `key` to `value`, whether or not the key had a value before.
    /// Every other key keeps what it had.
    pub fn insert(&mut self, key: String, value: String)
        ensures
            final(self)@ == old(self)@.insert(key@, value@),
    {
        proof {
            use_type_invariant(&*self);
        }
        let at = self.position(&key);
        let entry = Entry { key, value };
        let mut entries: Vec<Entry> = Vec::new();
        core::mem::swap(&mut self.entries, &mut entries);
        match at {
            Some(i) => {
                proof {
                    lemma_replace(entries@, i as int, entry);
                }
                entries.set(i, entry);
            },
            None => {
                proof {
                    lemma_append(entries@, entry);
                }
                entries.push(entry);
            },
        }
        self.entries = entries;
    }

    /// Does what `insert` does: the key need not be present, and is created
    /// where it is absent.
    pub fn update(&mut self, key: String, value: String)
        ensures
            final(self)@ == old(self)@.insert(key@, value@),
    {
        self.insert(key, value);
    }

    /// The value that `key` has, or `None` where the store holds no such key.
    /// The store is left as it is.
    pub fn get(&self, key: &String) -> (found: Option<String>)
        ensures
            match found {
                Some(v) => self@.contains_key(key@) && v@ == self@[key@],
                None => !self@.contains_key(key@),
            },
    {
        proof {
            use_type_invariant(self);
        }
        match self.position(key) {
            Some(i) => {
                proof {
                    lemma_entry_is_mapped(self.entries@, i as int);
                }
                Some(self.entries[i].value.clone())
            },
            None => None,
        }
    }
}

} // verus!
