//! A small map keyed by strings (conversation ids, OAuth state parameters).

use vstd::prelude::*;

verus! {

/// The map described by a list of entries; a later entry for a key wins.
pub open spec fn map_of<V>(entries: Seq<(String, V)>) -> Map<Seq<char>, V>
    decreases entries.len(),
{
    if entries.len() == 0 {
        Map::empty()
    } else {
        map_of(entries.drop_last()).insert(entries.last().0@, entries.last().1)
    }
}

pub open spec fn keys_unique<V>(entries: Seq<(String, V)>) -> bool {
    forall|i: int, j: int| 0 <= i < j < entries.len() ==> entries[i].0@ != entries[j].0@
}

proof fn lemma_map_of_dom<V>(entries: Seq<(String, V)>, k: Seq<char>)
    ensures
        map_of(entries).dom().contains(k) <==> exists|i: int| 0 <= i < entries.len() && #[trigger] entries[i].0@ == k,
    decreases entries.len(),
{
    if entries.len() > 0 {
        lemma_map_of_dom(entries.drop_last(), k);
        if map_of(entries).dom().contains(k) && entries.last().0@ != k {
            let i = choose|i: int| 0 <= i < entries.drop_last().len() && #[trigger] entries.drop_last()[i].0@ == k;
            assert(entries[i].0@ == k);
        }
        if exists|i: int| 0 <= i < entries.len() && #[trigger] entries[i].0@ == k {
            let i = choose|i: int| 0 <= i < entries.len() && #[trigger] entries[i].0@ == k;
            if i < entries.len() - 1 {
                assert(entries.drop_last()[i].0@ == k);
            }
        }
    }
}

proof fn lemma_map_of_value<V>(entries: Seq<(String, V)>, j: int)
    requires
        keys_unique(entries),
        0 <= j < entries.len(),
    ensures
        map_of(entries).dom().contains(entries[j].0@),
        map_of(entries)[entries[j].0@] == entries[j].1,
    decreases entries.len(),
{
    if j < entries.len() - 1 {
        lemma_map_of_value(entries.drop_last(), j);
        assert(entries.drop_last()[j] == entries[j]);
    }
}

proof fn lemma_map_of_update<V>(entries: Seq<(String, V)>, j: int, e: (String, V))
    requires
        keys_unique(entries),
        0 <= j < entries.len(),
        e.0@ == entries[j].0@,
    ensures
        map_of(entries.update(j, e)) == map_of(entries).insert(e.0@, e.1),
        keys_unique(entries.update(j, e)),
    decreases entries.len(),
{
    let u = entries.update(j, e);
    if j == entries.len() - 1 {
        assert(u.drop_last() =~= entries.drop_last());
        assert(map_of(u) =~= map_of(entries).insert(e.0@, e.1));
    } else {
        assert(u.drop_last() =~= entries.drop_last().update(j, e));
        lemma_map_of_update(entries.drop_last(), j, e);
        assert(entries.last().0@ != e.0@);
        assert(map_of(u) =~= map_of(entries).insert(e.0@, e.1));
    }
    assert forall|a: int, b: int| 0 <= a < b < u.len() implies u[a].0@ != u[b].0@ by {
        assert(entries[a].0@ != entries[b].0@);
    }
}

proof fn lemma_map_of_remove<V>(entries: Seq<(String, V)>, j: int)
    requires
        keys_unique(entries),
        0 <= j < entries.len(),
    ensures
        map_of(entries.remove(j)) == map_of(entries).remove(entries[j].0@),
        keys_unique(entries.remove(j)),
    decreases entries.len(),
{
    let k = entries[j].0@;
    let r = entries.remove(j);
    if j == entries.len() - 1 {
        assert(r =~= entries.drop_last());
        lemma_map_of_dom(entries.drop_last(), k);
        assert forall|i: int| 0 <= i < entries.drop_last().len() implies #[trigger] entries.drop_last()[i].0@ != k by {
            assert(entries[i].0@ != entries[j].0@);
        }
        assert(map_of(r) =~= map_of(entries).remove(k));
    } else {
        assert(r.drop_last() =~= entries.drop_last().remove(j));
        assert(r.last() == entries.last());
        assert(entries.drop_last()[j] == entries[j]);
        lemma_map_of_remove(entries.drop_last(), j);
        assert(entries.last().0@ != k);
        assert(map_of(r) =~= map_of(entries).remove(k));
    }
    assert forall|a: int, b: int| 0 <= a < b < r.len() implies r[a].0@ != r[b].0@ by {
        let a0 = if a < j { a } else { a + 1 };
        let b0 = if b < j { b } else { b + 1 };
        assert(r[a] == entries[a0]);
        assert(r[b] == entries[b0]);
    }
}

/// A map from strings to values with at most one entry per key.
pub struct StringMap<V> {
    entries: Vec<(String, V)>,
}

impl<V> StringMap<V> {
    pub closed spec fn view_map(&self) -> Map<Seq<char>, V> {
        map_of(self.entries@)
    }

    pub closed spec fn wf(&self) -> bool {
        keys_unique(self.entries@)
    }

    pub fn new() -> (r: Self)
        ensures
            r.wf(),
            r.view_map() == Map::<Seq<char>, V>::empty(),
    {
        StringMap { entries: Vec::new() }
    }

    fn find(&self, key: &String) -> (r: Option<usize>)
        requires
            self.wf(),
        ensures
            r matches Some(j) ==> j < self.entries@.len() && self.entries@[j as int].0@ == key@,
            r is None ==> !self.view_map().dom().contains(key@),
    {
        let mut i: usize = 0;
        while i < self.entries.len()
            invariant
                i <= self.entries@.len(),
                forall|x: int| 0 <= x < i ==> #[trigger] self.entries@[x].0@ != key@,
            decreases self.entries@.len() - i,
        {
            if self.entries[i].0 == *key {
                return Some(i);
            }
            i = i + 1;
        }
        proof {
            lemma_map_of_dom(self.entries@, key@);
        }
        None
    }

    /// The value for `key`, if any.
    pub fn get(&self, key: &String) -> (r: Option<&V>)
        requires
            self.wf(),
        ensures
            self.view_map().dom().contains(key@) ==> r == Some(&self.view_map()[key@]),
            !self.view_map().dom().contains(key@) ==> r is None,
    {
        match self.find(key) {
            Some(j) => {
                proof {
                    lemma_map_of_value(self.entries@, j as int);
                }
                Some(&self.entries[j].1)
            },
            None => None,
        }
    }

    /// Sets the value for `key`.
    pub fn insert(&mut self, key: String, value: V)
        requires
            old(self).wf(),
        ensures
            final(self).wf(),
            final(self).view_map() == old(self).view_map().insert(key@, value),
    {
        match self.find(&key) {
            Some(j) => {
                proof {
                    lemma_map_of_update(self.entries@, j as int, (key, value));
                }
                self.entries.set(j, (key, value));
            },
            None => {
                let ghost before = self.entries@;
                proof {
                    lemma_map_of_dom(before, key@);
                }
                self.entries.push((key, value));
                proof {
                    assert(self.entries@.drop_last() =~= before);
                    assert forall|a: int, b: int| 0 <= a < b < self.entries@.len() implies self.entries@[a].0@
                        != self.entries@[b].0@ by {
                        if b == self.entries@.len() - 1 {
                            assert(before[a].0@ != key@);
                        }
                    }
                }
            },
        }
    }

    /// Takes out the value for `key`, if any.
    pub fn remove(&mut self, key: &String) -> (r: Option<V>)
        requires
            old(self).wf(),
        ensures
            final(self).wf(),
            final(self).view_map() == old(self).view_map().remove(key@),
            old(self).view_map().dom().contains(key@) ==> r == Some(old(self).view_map()[key@]),
            !old(self).view_map().dom().contains(key@) ==> r is None,
    {
        match self.find(key) {
            Some(j) => {
                proof {
                    lemma_map_of_value(self.entries@, j as int);
                    lemma_map_of_remove(self.entries@, j as int);
                }
                let (_, v) = self.entries.remove(j);
                Some(v)
            },
            None => {
                assert(self.view_map().remove(key@) =~= self.view_map());
                None
            },
        }
    }

    pub fn len(&self) -> (n: usize)
        requires
            self.wf(),
        ensures
            n == self.view_map().dom().len(),
    {
        proof {
            lemma_map_of_len(self.entries@);
        }
        self.entries.len()
    }
}

proof fn lemma_map_of_len<V>(entries: Seq<(String, V)>)
    requires
        keys_unique(entries),
    ensures
        map_of(entries).dom().finite(),
        map_of(entries).dom().len() == entries.len(),
    decreases entries.len(),
{
    if entries.len() > 0 {
        let d = entries.drop_last();
        assert(keys_unique(d)) by {
            assert forall|a: int, b: int| 0 <= a < b < d.len() implies d[a].0@ != d[b].0@ by {
                assert(d[a] == entries[a]);
                assert(d[b] == entries[b]);
            }
        }
        lemma_map_of_len(d);
        lemma_map_of_dom(d, entries.last().0@);
        assert forall|i: int| 0 <= i < d.len() implies #[trigger] d[i].0@ != entries.last().0@ by {
            assert(d[i] == entries[i]);
        }
    }
}

/// What a write leaves behind: reading the key gives the written value and
/// every other key reads as before; after a removal the key is absent and
/// the other keys are untouched.
pub proof fn lemma_read_after_write<V>(m: Map<Seq<char>, V>, k: Seq<char>, v: V, other: Seq<char>)
    requires
        other != k,
    ensures
        m.insert(k, v).dom().contains(k),
        m.insert(k, v)[k] == v,
        m.insert(k, v).dom().contains(other) == m.dom().contains(other),
        m.dom().contains(other) ==> m.insert(k, v)[other] == m[other],
        !m.remove(k).dom().contains(k),
        m.remove(k).dom().contains(other) == m.dom().contains(other),
        m.dom().contains(other) ==> m.remove(k)[other] == m[other],
{
}

} // verus!
