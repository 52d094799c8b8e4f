//! A store held in memory.
use vstd::prelude::*;
use crate::store::{Contents, DataKey, Store, Value};

verus! {

/// One key with the value written under it.
struct Entry {
    key: DataKey,
    value: Value,
}

/// A store held in memory, as a list of entries. Of two entries with one key
/// the later one counts; `set` overwrites in place, so there never are two.
pub struct MemoryStore {
    entries: Vec<Entry>,
}

/// What a list of entries holds: each entry written in turn, first to last.
spec fn contents_of(entries: Seq<Entry>) -> Contents
    decreases entries.len(),
{
    if entries.len() == 0 {
        Map::empty()
    } else {
        contents_of(entries.drop_last()).insert(entries.last().key@, entries.last().value@)
    }
}

/// A key that no entry has is absent.
proof fn lemma_absent(entries: Seq<Entry>, key: crate::store::KeyView)
    requires
        forall|i: int| 0 <= i < entries.len() ==> entries[i].key@ != key,
    ensures
        !contents_of(entries).contains_key(key),
    decreases entries.len(),
{
    if entries.len() > 0 {
        lemma_absent(entries.drop_last(), key);
    }
}

/// A key holds the value of the last entry that has it.
proof fn lemma_last_match(entries: Seq<Entry>, key: crate::store::KeyView, j: int)
    requires
        0 <= j < entries.len(),
        entries[j].key@ == key,
        forall|i: int| j < i < entries.len() ==> entries[i].key@ != key,
    ensures
        contents_of(entries).contains_key(key),
        contents_of(entries)[key] == entries[j].value@,
    decreases entries.len(),
{
    if j < entries.len() - 1 {
        lemma_last_match(entries.drop_last(), key, j);
    }
}

/// Overwriting the last entry that has a key is writing under that key.
proof fn lemma_overwrite(entries: Seq<Entry>, j: int, entry: Entry)
    requires
        0 <= j < entries.len(),
        entries[j].key@ == entry.key@,
        forall|i: int| j < i < entries.len() ==> entries[i].key@ != entry.key@,
    ensures
        contents_of(entries.update(j, entry)) == contents_of(entries).insert(
            entry.key@,
            entry.value@,
        ),
    decreases entries.len(),
{
    let updated = entries.update(j, entry);
    if j == entries.len() - 1 {
        assert(updated.drop_last() =~= entries.drop_last());
        assert(contents_of(updated) =~= contents_of(entries).insert(entry.key@, entry.value@));
    } else {
        lemma_overwrite(entries.drop_last(), j, entry);
        assert(updated.drop_last() =~= entries.drop_last().update(j, entry));
        assert(contents_of(updated) =~= contents_of(entries).insert(entry.key@, entry.value@));
    }
}

impl MemoryStore {
    /// Makes a store that holds nothing.
    pub fn new() -> (store: MemoryStore)
        ensures
            store@ == Map::<crate::store::KeyView, crate::store::ValueView>::empty(),
    {
        MemoryStore { entries: Vec::new() }
    }

    /// Finds the last entry that has `key`.
    fn position(&self, key: &DataKey) -> (at: Option<usize>)
        ensures
            match at {
                Some(j) => j < self.entries@.len() && self.entries@[j as int].key@ == key@
                    && forall|i: int|
                    j < i < self.entries@.len() ==> self.entries@[i].key@ != key@,
                None => forall|i: int|
                    0 <= i < self.entries@.len() ==> self.entries@[i].key@ != key@,
            },
    {
        let mut i: usize = self.entries.len();
        while i > 0
            invariant
                i <= self.entries@.len(),
                forall|k: int| i <= k < self.entries@.len() ==> self.entries@[k].key@ != key@,
            decreases i,
        {
            i -= 1;
            if self.entries[i].key.same_as(key) {
                return Some(i);
            }
        }
        None
    }
}

impl Store for MemoryStore {
    closed spec fn view(&self) -> Contents {
        contents_of(self.entries@)
    }

    fn has(&self, key: &DataKey) -> (present: bool) {
        let at = self.position(key);
        proof {
            match at {
                Some(j) => lemma_last_match(self.entries@, key@, j as int),
                None => lemma_absent(self.entries@, key@),
            }
        }
        at.is_some()
    }

    fn get(&self, key: &DataKey) -> (found: Option<Value>) {
        match self.position(key) {
            Some(j) => {
                proof {
                    lemma_last_match(self.entries@, key@, j as int);
                }
                Some(self.entries[j].value.clone())
            },
            None => {
                proof {
                    lemma_absent(self.entries@, key@);
                }
                None
            },
        }
    }

    fn set(&mut self, key: DataKey, value: Value) {
        let entry = Entry { key, value };
        match self.position(&key) {
            Some(j) => {
                proof {
                    lemma_overwrite(self.entries@, j as int, entry);
                }
                self.entries[j] = entry;
            },
            None => {
                self.entries.push(entry);
                assert(self.entries@.drop_last() =~= old(self).entries@);
            },
        }
    }
}

} // verus!
