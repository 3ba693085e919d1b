//! A cache of access decisions keyed by a string.
//!
//! The store is an ordered list of `(key, decision)` pairs in which only
//! the first entry for a key is ever consulted; `add_to_cache` overwrites
//! that entry or appends a new one, so the cache behaves as a map.

use vstd::prelude::*;

use crate::lookup::lemma_first_index;
use crate::lookup::lemma_first_index_push;
use crate::lookup::lemma_first_index_update;
use crate::lookup::spec_first_index;
use crate::lookup::spec_first_value;

verus! {

/// Cached access decisions, one per key.
pub struct AccessCache {
    entries: Vec<(String, bool)>,
}

impl AccessCache {
    /// The decision stored under `key`, if any.
    pub closed spec fn spec_get(self, key: Seq<char>) -> Option<bool> {
        spec_first_value(self.entries@, key)
    }

    pub fn new() -> (c: AccessCache)
        ensures
            forall|k: Seq<char>| c.spec_get(k) is None,
    {
        AccessCache { entries: Vec::new() }
    }

    /// The index of the first entry for `key`, if any.
    fn find_index(&self, key: &str) -> (idx: Option<usize>)
        ensures
            match idx {
                Option::Some(i) => i < self.entries@.len() && self.entries@[i as int].0@ == key@
                    && spec_first_index(self.entries@, key@) == Option::Some(i as int),
                Option::None => spec_first_index(self.entries@, key@) is None,
            },
    {
        let target: String = key.to_owned();
        let mut i: usize = 0;
        while i < self.entries.len()
            invariant
                0 <= i <= self.entries@.len(),
                forall|j: int| 0 <= j < i ==> self.entries@[j].0@ != key@,
                target@ == key@,
            decreases self.entries@.len() - i,
        {
            if self.entries[i].0 == target {
                proof {
                    lemma_first_index(self.entries@, key@);
                }
                return Option::Some(i);
            }
            i = i + 1;
        }
        proof {
            lemma_first_index(self.entries@, key@);
        }
        Option::None
    }

    /// A pure query: the cached decision for `key`, or `None` when no
    /// decision is cached.
    pub fn check_cache(&self, key: &str) -> (r: Option<bool>)
        ensures
            r == self.spec_get(key@),
    {
        match self.find_index(key) {
            Option::Some(i) => Option::Some(self.entries[i].1),
            Option::None => Option::None,
        }
    }

    /// Stores `access_granted` under `key`, overwriting any decision
    /// cached there; every other key keeps its entry.
    pub fn add_to_cache(&mut self, key: &str, access_granted: bool)
        ensures
            final(self).spec_get(key@) == Option::Some(access_granted),
            forall|k: Seq<char>| k != key@ ==> final(self).spec_get(k) == old(self).spec_get(k),
    {
        match self.find_index(key) {
            Option::Some(i) => {
                proof {
                    lemma_first_index(self.entries@, key@);
                }
                let mut entry = self.entries.remove(i);
                entry.1 = access_granted;
                self.entries.insert(i, entry);
                proof {
                    let e = (old(self).entries@[i as int].0, access_granted);
                    assert(self.entries@ =~= old(self).entries@.update(i as int, e));
                    assert forall|k: Seq<char>| k != key@ implies self.spec_get(k) == old(
                        self,
                    ).spec_get(k) by {
                        lemma_first_index_update(old(self).entries@, i as int, e, k);
                        lemma_first_index(old(self).entries@, k);
                    }
                    lemma_first_index_update(old(self).entries@, i as int, e, key@);
                }
            },
            Option::None => {
                let entry = (key.to_owned(), access_granted);
                let ghost e = entry;
                self.entries.push(entry);
                proof {
                    assert forall|k: Seq<char>| k != key@ implies self.spec_get(k) == old(
                        self,
                    ).spec_get(k) by {
                        lemma_first_index_push(old(self).entries@, e, k);
                        if spec_first_index(old(self).entries@, k) is Some {
                            lemma_first_index(old(self).entries@, k);
                        }
                    }
                    lemma_first_index_push(old(self).entries@, e, key@);
                }
            },
        }
    }
}

} // verus!
