//! A key-value store of comparison records, held in memory.
//!
//! The store is the contract that the service works against, in its plainest
//! form: a load sees what the last save under the same key wrote.

use crate::record::Comparison;
use vstd::prelude::*;

verus! {

/// One key with the record saved under it.
struct Entry {
    key: String,
    record: Comparison,
}

/// Records by key. No key is held twice.
pub struct MemoryStore {
    entries: Vec<Entry>,
}

/// Whether `entries` holds `key` at position `i`.
spec fn holds(entries: Seq<Entry>, i: int, key: Seq<char>) -> bool {
    0 <= i < entries.len() && entries[i].key@ == key
}

/// The position of `key` in `entries`, where it has one.
spec fn position(entries: Seq<Entry>, key: Seq<char>) -> int {
    choose|i: int| holds(entries, i, key)
}

/// Whether no two entries have the same key.
spec fn distinct(entries: Seq<Entry>) -> bool {
    forall|i: int, j: int|
        0 <= i < j < entries.len() ==> #[trigger] entries[i].key@ != #[trigger] entries[j].key@
}

/// Among distinct keys, a key is held at one position only.
proof fn lemma_position(entries: Seq<Entry>, i: int, key: Seq<char>)
    requires
        distinct(entries),
        holds(entries, i, key),
    ensures
        position(entries, key) == i,
{
    let chosen = position(entries, key);
    assert(holds(entries, chosen, key));
    if chosen < i {
        assert(entries[chosen].key@ != entries[i].key@);
    } else if i < chosen {
        assert(entries[i].key@ != entries[chosen].key@);
    }
}

impl View for MemoryStore {
    type V = Map<Seq<char>, Comparison>;

    /// What the store holds: the record saved last under each key.
    closed spec fn view(&self) -> Map<Seq<char>, Comparison> {
        Map::new(
            |key: Seq<char>| exists|i: int| holds(self.entries@, i, key),
            |key: Seq<char>| self.entries@[position(self.entries@, key)].record,
        )
    }
}

impl MemoryStore {
    #[verifier::type_invariant]
    spec fn keys_are_distinct(self) -> bool {
        distinct(self.entries@)
    }

    /// A store that holds nothing.
    pub fn new() -> (store: MemoryStore)
        ensures
            store@ == Map::<Seq<char>, Comparison>::empty(),
    {
        let store = MemoryStore { entries: Vec::new() };
        assert(store@ =~= Map::<Seq<char>, Comparison>::empty()) by {
            assert(forall|key: Seq<char>, i: int| !holds(store.entries@, i, key));
        }
        store
    }

    /// The position of `key`, or the number of entries where no entry has it.
    fn find(&self, key: &str) -> (at: usize)
        ensures
            at <= self.entries@.len(),
            at < self.entries@.len() ==> holds(self.entries@, at as int, key@) && self@.contains_key(
                key@,
            ) && self@[key@] == self.entries@[at as int].record,
            at == self.entries@.len() ==> !self@.contains_key(key@),
    {
        proof {
            use_type_invariant(self);
        }
        let wanted = String::from_str(key);
        let mut at: usize = 0;
        while at < self.entries.len()
            invariant
                at <= self.entries@.len(),
                wanted@ == key@,
                distinct(self.entries@),
                forall|i: int| 0 <= i < at ==> !holds(self.entries@, i, key@),
            decreases self.entries@.len() - at,
        {
            if self.entries[at].key == wanted {
                proof {
                    lemma_position(self.entries@, at as int, key@);
                }
                return at;
            }
            at += 1;
        }
        at
    }

    /// The record saved under `key`, or nothing where none was saved.
    pub fn load(&self, key: &str) -> (record: Option<Comparison>)
        ensures
            record == if self@.contains_key(key@) {
                Some(self@[key@])
            } else {
                None
            },
    {
        let at = self.find(key);
        if at < self.entries.len() {
            Some(self.entries[at].record.clone())
        } else {
            None
        }
    }

    /// Saves `record` under `key`, in the place of what was saved there before.
    /// Every other key keeps its record.
    pub fn save(&mut self, key: &str, record: Comparison)
        ensures
            final(self)@ == old(self)@.insert(key@, record),
    {
        proof {
            use_type_invariant(&*self);
        }
        let at = self.find(key);
        let entry = Entry { key: String::from_str(key), record };
        let ghost before = self.entries@;
        let mut taken = MemoryStore { entries: Vec::new() };
        std::mem::swap(self, &mut taken);
        let mut entries = taken.entries;
        if at < entries.len() {
            entries.set(at, entry);
        } else {
            entries.push(entry);
        }
        let ghost after = entries@;
        proof {
            assert forall|i: int, j: int| 0 <= i < j < after.len() implies #[trigger] after[i].key@
                != #[trigger] after[j].key@ by {
                if i != at && j != at {
                    assert(before[i].key@ != before[j].key@);
                } else if i == at {
                    assert(!holds(before, j, key@) || j == at);
                } else {
                    assert(!holds(before, i, key@) || i == at);
                }
            }
        }
        *self = MemoryStore { entries };
        proof {
            assert(holds(after, at as int, key@));
            assert forall|other: Seq<char>, i: int| other != key@ implies holds(before, i, other)
                == holds(after, i, other) by {}
            assert forall|other: Seq<char>| #[trigger] self@.contains_key(other) implies self@[other]
                == old(self)@.insert(key@, record)[other] by {
                let i = position(after, other);
                lemma_position(after, i, other);
                if other == key@ {
                    lemma_position(after, at as int, other);
                } else {
                    lemma_position(before, i, other);
                }
            }
            assert(self@ =~= old(self)@.insert(key@, record));
        }
    }
}

} // verus!
