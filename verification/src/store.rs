//! An in-memory key-value store of ledger records, addressed by opaque text
//! identifiers. It is the model of the persistent store the ledger lives
//! against: `get` and `set` are its whole surface, `set` overwrites, and
//! nothing is ever deleted.

use vstd::prelude::*;
use crate::records::{Record, RecordView};

verus! {

/// No two entries share a key.
pub(crate) open spec fn entries_wf(s: Seq<(String, Record)>) -> bool {
    forall|i: int, j: int| 0 <= i < j < s.len() ==> s[i].0@ != s[j].0@
}

/// Some entry of `s` carries the key `k`.
pub(crate) open spec fn has_key_in(s: Seq<(String, Record)>, k: Seq<char>) -> bool {
    exists|i: int| 0 <= i < s.len() && s[i].0@ == k
}

/// The index of the entry carrying key `k`, where one exists.
pub(crate) open spec fn index_of_key(s: Seq<(String, Record)>, k: Seq<char>) -> int {
    choose|i: int| 0 <= i < s.len() && s[i].0@ == k
}

/// The entries of `s` as a map from key to record model.
pub(crate) open spec fn map_of(s: Seq<(String, Record)>) -> Map<Seq<char>, RecordView> {
    Map::new(
        |k: Seq<char>| has_key_in(s, k),
        |k: Seq<char>| s[index_of_key(s, k)].1@,
    )
}

proof fn lemma_key_at_index(s: Seq<(String, Record)>, k: Seq<char>, i: int)
    requires
        entries_wf(s),
        0 <= i < s.len(),
        s[i].0@ == k,
    ensures
        map_of(s).contains_key(k),
        map_of(s)[k] == s[i].1@,
{
    assert(has_key_in(s, k));
    let j = index_of_key(s, k);
    assert(0 <= j < s.len() && s[j].0@ == k);
    assert(j == i);
}

proof fn lemma_map_of_update(s: Seq<(String, Record)>, i: int, e: (String, Record))
    requires
        entries_wf(s),
        0 <= i < s.len(),
        s[i].0@ == e.0@,
    ensures
        entries_wf(s.update(i, e)),
        map_of(s.update(i, e)) == map_of(s).insert(e.0@, e.1@),
{
    let s2 = s.update(i, e);
    let k0 = e.0@;
    assert forall|a: int| 0 <= a < s.len() implies s2[a].0@ == s[a].0@ by {}
    assert(entries_wf(s2));
    assert forall|k: Seq<char>| has_key_in(s2, k) == has_key_in(s, k) by {
        if has_key_in(s2, k) {
            let j = choose|j: int| 0 <= j < s2.len() && s2[j].0@ == k;
            assert(s[j].0@ == k);
        }
        if has_key_in(s, k) {
            let j = choose|j: int| 0 <= j < s.len() && s[j].0@ == k;
            assert(s2[j].0@ == k);
        }
    }
    assert(has_key_in(s, k0));
    assert forall|k: Seq<char>| #[trigger] map_of(s2).contains_key(k) implies map_of(s2)[k]
        == map_of(s).insert(k0, e.1@)[k] by {
        if k == k0 {
            lemma_key_at_index(s2, k0, i);
        } else {
            let j = choose|j: int| 0 <= j < s.len() && s[j].0@ == k;
            assert(j != i);
            lemma_key_at_index(s, k, j);
            lemma_key_at_index(s2, k, j);
        }
    }
    assert(map_of(s2) =~= map_of(s).insert(k0, e.1@));
}

proof fn lemma_map_of_push(s: Seq<(String, Record)>, e: (String, Record))
    requires
        entries_wf(s),
        forall|i: int| 0 <= i < s.len() ==> s[i].0@ != e.0@,
    ensures
        entries_wf(s.push(e)),
        map_of(s.push(e)) == map_of(s).insert(e.0@, e.1@),
{
    let s2 = s.push(e);
    let k0 = e.0@;
    assert(entries_wf(s2));
    assert forall|k: Seq<char>| has_key_in(s2, k) == (k == k0 || has_key_in(s, k)) by {
        if has_key_in(s2, k) {
            let j = choose|j: int| 0 <= j < s2.len() && s2[j].0@ == k;
            if j < s.len() {
                assert(s[j].0@ == k);
            }
        }
        if has_key_in(s, k) {
            let j = choose|j: int| 0 <= j < s.len() && s[j].0@ == k;
            assert(s2[j].0@ == k);
        }
        assert(s2[s.len() as int].0@ == k0);
    }
    assert forall|k: Seq<char>| #[trigger] map_of(s2).contains_key(k) implies map_of(s2)[k]
        == map_of(s).insert(k0, e.1@)[k] by {
        if k == k0 {
            lemma_key_at_index(s2, k0, s.len() as int);
        } else {
            let j = choose|j: int| 0 <= j < s.len() && s[j].0@ == k;
            lemma_key_at_index(s, k, j);
            lemma_key_at_index(s2, k, j);
        }
    }
    assert(map_of(s2) =~= map_of(s).insert(k0, e.1@));
}

/// The key-value store: a list of entries with pairwise-distinct keys, seen
/// abstractly as a map from key to record model.
pub struct Store {
    entries: Vec<(String, Record)>,
}

impl Store {
    /// The store's internal invariant: one entry per key.
    pub closed spec fn wf(&self) -> bool {
        entries_wf(self.entries@)
    }

    pub closed spec fn view(&self) -> Map<Seq<char>, RecordView> {
        map_of(self.entries@)
    }

    /// An empty store: no key holds a record.
    pub fn new() -> (s: Store)
        ensures
            s.wf(),
            s@ == Map::<Seq<char>, RecordView>::empty(),
    {
        let s = Store { entries: Vec::new() };
        proof {
            assert(s@ =~= Map::<Seq<char>, RecordView>::empty());
        }
        s
    }

    /// Returns the record under `key`, or nothing where no record was ever
    /// stored there. No side effects.
    pub fn get(&self, key: &String) -> (r: Option<&Record>)
        requires
            self.wf(),
        ensures
            match r {
                Some(rec) => self@.contains_key(key@) && rec@ == self@[key@],
                None => !self@.contains_key(key@),
            },
    {
        let n = self.entries.len();
        let mut i: usize = 0;
        while i < n
            invariant
                n == self.entries.len(),
                i <= n,
                self.wf(),
                forall|j: int| 0 <= j < i ==> self.entries@[j].0@ != key@,
            decreases n - i,
        {
            if self.entries[i].0 == *key {
                proof {
                    lemma_key_at_index(self.entries@, key@, i as int);
                }
                return Some(&self.entries[i].1);
            }
            i += 1;
        }
        None
    }

    /// Writes `value` under `key`, overwriting whatever record was there.
    pub fn set(&mut self, key: String, value: Record)
        requires
            old(self).wf(),
        ensures
            final(self).wf(),
            final(self)@ == old(self)@.insert(key@, value@),
    {
        let n = self.entries.len();
        let mut i: usize = 0;
        while i < n
            invariant
                n == self.entries.len(),
                i <= n,
                self.entries@ == old(self).entries@,
                entries_wf(self.entries@),
                forall|j: int| 0 <= j < i ==> self.entries@[j].0@ != key@,
            decreases n - i,
        {
            if self.entries[i].0 == key {
                let ghost entries0 = self.entries@;
                let ghost k = key@;
                let ghost v = value@;
                self.entries.set(i, (key, value));
                proof {
                    lemma_map_of_update(entries0, i as int, (self.entries@[i as int]));
                    assert(self.entries@[i as int].0@ == k);
                    assert(self.entries@[i as int].1@ == v);
                }
                return;
            }
            i += 1;
        }
        let ghost entries0 = self.entries@;
        let ghost k = key@;
        let ghost v = value@;
        self.entries.push((key, value));
        proof {
            lemma_map_of_push(entries0, (self.entries@[entries0.len() as int]));
            assert(self.entries@[entries0.len() as int].0@ == k);
            assert(self.entries@[entries0.len() as int].1@ == v);
        }
    }
}

} // verus!
