//! A small keyed table: entries in the order in which their keys first
//! appeared, each key at most once.

use vstd::prelude::*;

verus! {

/// Whether some entry of `s` has the key `key`.
pub open spec fn has_key<V>(s: Seq<(u128, V)>, key: u128) -> bool {
    exists|i: int| 0 <= i < s.len() && (#[trigger] s[i]).0 == key
}

/// An index at which `key` stands in `s`, where there is one.
pub open spec fn position_of<V>(s: Seq<(u128, V)>, key: u128) -> int {
    choose|i: int| 0 <= i < s.len() && (#[trigger] s[i]).0 == key
}

/// No key stands at two places.
pub open spec fn distinct_keys<V>(s: Seq<(u128, V)>) -> bool {
    forall|i: int, j: int| 0 <= i < j < s.len() ==> (#[trigger] s[i]).0 != (#[trigger] s[j]).0
}

/// The entries as a map from key to value.
pub open spec fn as_map<V>(s: Seq<(u128, V)>) -> Map<u128, V> {
    Map::new(|k: u128| has_key(s, k), |k: u128| s[position_of(s, k)].1)
}

/// With distinct keys, the place of a key is the only one that holds it.
pub proof fn lemma_position_unique<V>(s: Seq<(u128, V)>, i: int)
    requires
        distinct_keys(s),
        0 <= i < s.len(),
    ensures
        has_key(s, s[i].0),
        position_of(s, s[i].0) == i,
        as_map(s).dom().contains(s[i].0),
        as_map(s)[s[i].0] == s[i].1,
{
    let key = s[i].0;
    assert(0 <= i < s.len() && s[i].0 == key);
    let p = position_of(s, key);
    assert(0 <= p < s.len() && s[p].0 == key);
    if p < i {
        assert(s[p].0 != s[i].0);
    } else if i < p {
        assert(s[i].0 != s[p].0);
    }
}

/// Replacing the value at one place changes the map at that key alone.
pub proof fn lemma_as_map_update<V>(s: Seq<(u128, V)>, i: int, v: V)
    requires
        distinct_keys(s),
        0 <= i < s.len(),
    ensures
        distinct_keys(s.update(i, (s[i].0, v))),
        as_map(s.update(i, (s[i].0, v))) == as_map(s).insert(s[i].0, v),
{
    let key = s[i].0;
    let t = s.update(i, (key, v));
    assert forall|a: int, b: int| 0 <= a < b < t.len() implies (#[trigger] t[a]).0 != (#[trigger] t[b]).0 by {
        assert(s[a].0 != s[b].0);
    }
    assert forall|k: u128| has_key(t, k) == has_key(s, k) by {
        if has_key(t, k) {
            let p = position_of(t, k);
            assert(0 <= p < s.len() && s[p].0 == k);
        }
        if has_key(s, k) {
            let p = position_of(s, k);
            assert(0 <= p < t.len() && t[p].0 == k);
        }
    }
    assert forall|k: u128| has_key(t, k) implies #[trigger] as_map(t)[k] == as_map(s).insert(key, v)[k] by {
        let p = position_of(t, k);
        assert(0 <= p < t.len() && t[p].0 == k);
        lemma_position_unique(t, p);
        if k == key {
            lemma_position_unique(t, i);
        } else {
            assert(p != i);
            lemma_position_unique(s, p);
        }
    }
    lemma_position_unique(s, i);
    assert(as_map(t) =~= as_map(s).insert(key, v));
}

/// Appending a new key extends the map by that key.
pub proof fn lemma_as_map_push<V>(s: Seq<(u128, V)>, key: u128, v: V)
    requires
        distinct_keys(s),
        !has_key(s, key),
    ensures
        distinct_keys(s.push((key, v))),
        as_map(s.push((key, v))) == as_map(s).insert(key, v),
{
    let t = s.push((key, v));
    assert forall|a: int, b: int| 0 <= a < b < t.len() implies (#[trigger] t[a]).0 != (#[trigger] t[b]).0 by {
        if b < s.len() {
            assert(s[a].0 != s[b].0);
        } else {
            assert(0 <= a < s.len() && s[a].0 == t[a].0);
        }
    }
    assert forall|k: u128| has_key(t, k) == (has_key(s, k) || k == key) by {
        if has_key(t, k) {
            let p = position_of(t, k);
            if p < s.len() {
                assert(0 <= p < s.len() && s[p].0 == k);
            }
        }
        if has_key(s, k) {
            let p = position_of(s, k);
            assert(0 <= p < t.len() && t[p].0 == k);
        }
        if k == key {
            assert(0 <= s.len() < t.len() && t[s.len() as int].0 == k);
        }
    }
    assert forall|k: u128| has_key(t, k) implies #[trigger] as_map(t)[k] == as_map(s).insert(key, v)[k] by {
        let p = position_of(t, k);
        assert(0 <= p < t.len() && t[p].0 == k);
        lemma_position_unique(t, p);
        if k == key {
            lemma_position_unique(t, s.len() as int);
        } else {
            assert(p < s.len());
            lemma_position_unique(s, p);
        }
    }
    assert(as_map(t) =~= as_map(s).insert(key, v));
}

/// A table of values under 128-bit keys.
pub struct Table<V> {
    entries: Vec<(u128, V)>,
}

impl<V: Copy> Table<V> {
    /// The entries, oldest key first.
    pub closed spec fn entries(&self) -> Seq<(u128, V)> {
        self.entries@
    }

    /// Each key occurs once.
    pub open spec fn wf(&self) -> bool {
        distinct_keys(self.entries())
    }

    /// The table as a map from key to value.
    pub open spec fn view(&self) -> Map<u128, V> {
        as_map(self.entries())
    }

    /// The empty table.
    pub fn new() -> (res: Table<V>)
        ensures
            res.wf(),
            res.entries() == Seq::<(u128, V)>::empty(),
            res@ == Map::<u128, V>::empty(),
    {
        let res = Table { entries: Vec::new() };
        proof {
            assert(res@ =~= Map::<u128, V>::empty());
        }
        res
    }

    /// Number of entries.
    pub fn len(&self) -> (res: usize)
        ensures
            res == self.entries().len(),
    {
        self.entries.len()
    }

    /// The entry at place `i`.
    pub fn entry(&self, i: usize) -> (res: (u128, V))
        requires
            i < self.entries().len(),
        ensures
            res == self.entries()[i as int],
    {
        self.entries[i]
    }

    /// The place of `key`, where the table holds it.
    pub fn find(&self, key: u128) -> (res: Option<usize>)
        ensures
            match res {
                Some(i) => i < self.entries().len() && self.entries()[i as int].0 == key,
                None => !has_key(self.entries(), key),
            },
    {
        let mut i: usize = 0;
        while i < self.entries.len()
            invariant
                i <= self.entries.len(),
                forall|j: int| 0 <= j < i ==> (#[trigger] self.entries@[j]).0 != key,
            decreases self.entries.len() - i,
        {
            if self.entries[i].0 == key {
                return Some(i);
            }
            i = i + 1;
        }
        None
    }

    /// The value under `key`, where the table holds one.
    pub fn get(&self, key: u128) -> (res: Option<V>)
        requires
            self.wf(),
        ensures
            res == (if self@.dom().contains(key) {
                Some(self@[key])
            } else {
                None
            }),
    {
        match self.find(key) {
            Some(i) => {
                proof {
                    lemma_position_unique(self.entries(), i as int);
                }
                Some(self.entries[i].1)
            },
            None => None,
        }
    }

    /// Puts `value` under `key`, in place of what was there.
    pub fn set(&mut self, key: u128, value: V)
        requires
            old(self).wf(),
        ensures
            final(self).wf(),
            final(self)@ == old(self)@.insert(key, value),
            has_key(old(self).entries(), key) ==> final(self).entries() == old(self).entries().update(
                position_of(old(self).entries(), key),
                (key, value),
            ),
            !has_key(old(self).entries(), key) ==> final(self).entries() == old(self).entries().push(
                (key, value),
            ),
    {
        match self.find(key) {
            Some(i) => {
                proof {
                    lemma_position_unique(self.entries(), i as int);
                    lemma_as_map_update(self.entries(), i as int, value);
                }
                self.entries.set(i, (key, value));
            },
            None => {
                proof {
                    lemma_as_map_push(self.entries(), key, value);
                }
                self.entries.push((key, value));
            },
        }
    }
}

} // verus!
