//! A key-value store kept as a journal of writes: each write appends an
//! entry, and the latest entry for a key decides what the key holds.

use vstd::prelude::*;
use crate::types::StorageKey;

verus! {

/// The map that a journal of writes describes: an entry `(k, Some(v))` sets
/// `k` to `v`, an entry `(k, None)` removes `k`, and later entries win.
pub open spec fn journal_map<K, V>(s: Seq<(K, Option<V>)>) -> Map<K, V>
    decreases s.len(),
{
    if s.len() == 0 {
        Map::empty()
    } else {
        let prev = journal_map(s.drop_last());
        match s.last().1 {
            Some(v) => prev.insert(s.last().0, v),
            None => prev.remove(s.last().0),
        }
    }
}

/// Entries after position `n` that do not write `k` leave what `k` holds unchanged.
proof fn lemma_journal_suffix<K, V>(s: Seq<(K, Option<V>)>, n: int, k: K)
    requires
        0 <= n <= s.len(),
        forall|j: int| n <= j < s.len() ==> s[j].0 != k,
    ensures
        journal_map(s).contains_key(k) == journal_map(s.take(n)).contains_key(k),
        journal_map(s).contains_key(k) ==> journal_map(s)[k] == journal_map(s.take(n))[k],
    decreases s.len() - n,
{
    if s.len() == n {
        assert(s.take(n) =~= s);
    } else {
        let t = s.drop_last();
        assert(t.take(n) =~= s.take(n));
        lemma_journal_suffix(t, n, k);
    }
}

/// A store from keys to values.
pub struct Table<K, V> {
    entries: Vec<(K, Option<V>)>,
}

impl<K: StorageKey, V: Copy> Table<K, V> {
    /// What the store holds.
    pub closed spec fn view(&self) -> Map<K, V> {
        journal_map(self.entries@)
    }

    /// What the store holds at `k`.
    pub open spec fn lookup(&self, k: K) -> Option<V> {
        if self.view().contains_key(k) {
            Some(self.view()[k])
        } else {
            None
        }
    }

    /// An empty store.
    pub fn new() -> (t: Self)
        ensures
            t.view() == Map::<K, V>::empty(),
    {
        Table { entries: Vec::new() }
    }

    /// The value stored at `k`, if any.
    pub fn get(&self, k: &K) -> (r: Option<V>)
        ensures
            r == self.lookup(*k),
    {
        let mut i: usize = self.entries.len();
        while i > 0
            invariant
                i <= self.entries@.len(),
                forall|j: int| i <= j < self.entries@.len() ==> self.entries@[j].0 != *k,
            decreases i,
        {
            let e = &self.entries[i - 1];
            if e.0.same_key(k) {
                proof {
                    let s = self.entries@;
                    lemma_journal_suffix(s, i as int, *k);
                    assert(s.take(i as int).drop_last() =~= s.take(i - 1));
                }
                return e.1;
            }
            i = i - 1;
        }
        proof {
            lemma_journal_suffix(self.entries@, 0, *k);
            assert(self.entries@.take(0) =~= Seq::<(K, Option<V>)>::empty());
        }
        None
    }

    /// Whether a value is stored at `k`.
    pub fn has(&self, k: &K) -> (b: bool)
        ensures
            b == self.view().contains_key(*k),
    {
        self.get(k).is_some()
    }

    /// Stores `v` at `k`.
    pub fn set(&mut self, k: K, v: V)
        ensures
            final(self).view() == old(self).view().insert(k, v),
    {
        self.entries.push((k, Some(v)));
        proof {
            assert(self.entries@.drop_last() =~= old(self).entries@);
        }
    }

    /// Removes whatever is stored at `k`.
    pub fn remove(&mut self, k: K)
        ensures
            final(self).view() == old(self).view().remove(k),
    {
        self.entries.push((k, None));
        proof {
            assert(self.entries@.drop_last() =~= old(self).entries@);
        }
    }
}

} // verus!
