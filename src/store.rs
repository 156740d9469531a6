//! A small map from string keys to values, kept as a list of entries with
//! distinct keys.
use vstd::prelude::*;

verus! {

/// Map from string keys to values.
pub struct KeyedStore<V> {
    entries: Vec<(String, V)>,
}

spec fn has_key<V>(es: Seq<(String, V)>, k: Seq<char>) -> bool {
    exists|i: int| 0 <= i < es.len() && (#[trigger] es[i]).0@ == k
}

spec fn key_index<V>(es: Seq<(String, V)>, k: Seq<char>) -> int {
    choose|i: int| 0 <= i < es.len() && (#[trigger] es[i]).0@ == k
}

impl<V> View for KeyedStore<V> {
    type V = Map<Seq<char>, V>;

    closed spec fn view(&self) -> Map<Seq<char>, V> {
        Map::new(
            |k: Seq<char>| has_key(self.entries@, k),
            |k: Seq<char>| self.entries@[key_index(self.entries@, k)].1,
        )
    }
}

impl<V> KeyedStore<V> {
    /// No two entries share a key.
    pub closed spec fn wf(&self) -> bool {
        forall|i: int, j: int|
            0 <= i < j < self.entries@.len() ==> (#[trigger] self.entries@[i]).0@ != (
            #[trigger] self.entries@[j]).0@
    }

    proof fn lemma_lookup(&self, i: int)
        requires
            self.wf(),
            0 <= i < self.entries@.len(),
        ensures
            self@.contains_key(self.entries@[i].0@),
            self@[self.entries@[i].0@] == self.entries@[i].1,
    {
        let k = self.entries@[i].0@;
        assert(has_key(self.entries@, k));
        let j = key_index(self.entries@, k);
        if j != i {
            if j < i {
                assert(self.entries@[j].0@ != self.entries@[i].0@);
            } else {
                assert(self.entries@[i].0@ != self.entries@[j].0@);
            }
        }
    }

    /// The entries in storage order.
    pub closed spec fn pairs(&self) -> Seq<(String, V)> {
        self.entries@
    }

    /// Every entry is in the map, keys are distinct, and every key of the map
    /// has an entry.
    pub proof fn lemma_pairs(&self)
        requires
            self.wf(),
        ensures
            forall|i: int|
                0 <= i < self.pairs().len() ==> self@.contains_key((#[trigger] self.pairs()[i]).0@)
                    && self@[self.pairs()[i].0@] == self.pairs()[i].1,
            forall|k: Seq<char>|
                #[trigger] self@.contains_key(k) ==> exists|i: int|
                    0 <= i < self.pairs().len() && (#[trigger] self.pairs()[i]).0@ == k,
            forall|i: int, j: int|
                0 <= i < j < self.pairs().len() ==> (#[trigger] self.pairs()[i]).0@ != (
                #[trigger] self.pairs()[j]).0@,
    {
        assert forall|i: int| 0 <= i < self.pairs().len() implies self@.contains_key(
            (#[trigger] self.pairs()[i]).0@,
        ) && self@[self.pairs()[i].0@] == self.pairs()[i].1 by {
            self.lemma_lookup(i);
        }
        assert forall|k: Seq<char>| #[trigger] self@.contains_key(k) implies exists|i: int|
            0 <= i < self.pairs().len() && (#[trigger] self.pairs()[i]).0@ == k by {
            let i = key_index(self.entries@, k);
            assert(self.pairs()[i].0@ == k);
        }
    }

    /// Number of entries.
    pub fn len(&self) -> (r: usize)
        ensures
            r == self.pairs().len(),
    {
        self.entries.len()
    }

    /// The entry at position `i` in storage order.
    pub fn entry(&self, i: usize) -> (r: (&String, &V))
        requires
            i < self.pairs().len(),
        ensures
            (*r.0, *r.1) == self.pairs()[i as int],
    {
        let e = &self.entries[i];
        (&e.0, &e.1)
    }

    /// An empty store.
    pub fn new() -> (r: KeyedStore<V>)
        ensures
            r.wf(),
            r@ == Map::<Seq<char>, V>::empty(),
    {
        let r = KeyedStore { entries: Vec::new() };
        assert(r@ =~= Map::<Seq<char>, V>::empty());
        r
    }

    fn find(&self, key: &str) -> (r: Option<usize>)
        requires
            self.wf(),
        ensures
            match r {
                Some(i) => i < self.entries@.len() && self.entries@[i as int].0@ == key@,
                None => !self@.contains_key(key@),
            },
    {
        let k = key.to_owned();
        let mut i: usize = 0;
        while i < self.entries.len()
            invariant
                i <= self.entries@.len(),
                k@ == key@,
                forall|j: int| 0 <= j < i ==> (#[trigger] self.entries@[j]).0@ != key@,
            decreases self.entries@.len() - i,
        {
            if self.entries[i].0 == k {
                return Some(i);
            }
            i = i + 1;
        }
        None
    }

    /// The value of `key`.
    pub fn get(&self, key: &str) -> (r: Option<&V>)
        requires
            self.wf(),
        ensures
            match r {
                Some(v) => self@.contains_key(key@) && *v == self@[key@],
                None => !self@.contains_key(key@),
            },
    {
        match self.find(key) {
            Some(i) => {
                proof {
                    self.lemma_lookup(i as int);
                }
                Some(&self.entries[i].1)
            },
            None => None,
        }
    }

    /// Sets the value of `key`, replacing any earlier one.
    pub fn insert(&mut self, key: String, value: V)
        requires
            old(self).wf(),
        ensures
            final(self).wf(),
            final(self)@ == old(self)@.insert(key@, value),
    {
        let ghost before = *self;
        let ghost kv = key@;
        let ghost val = value;
        match self.find(key.as_str()) {
            Some(i) => {
                self.entries.set(i, (key, value));
                proof {
                    let es = self.entries@;
                    let old_es = before.entries@;
                    assert forall|a: int, b: int| 0 <= a < b < es.len() implies (
                    #[trigger] es[a]).0@ != (#[trigger] es[b]).0@ by {
                        assert(old_es[a].0@ != old_es[b].0@);
                    }
                    let m = before@.insert(kv, val);
                    assert forall|k: Seq<char>| #[trigger] self@.contains_key(k) == m.contains_key(k) by {
                        if m.contains_key(k) && k != kv {
                            let j = key_index(old_es, k);
                            assert(es[j].0@ == k);
                        }
                        if self@.contains_key(k) && k != kv {
                            let j = key_index(es, k);
                            assert(old_es[j].0@ == k);
                        }
                        if k == kv {
                            assert(es[i as int].0@ == k);
                        }
                    }
                    assert forall|k: Seq<char>| #[trigger] self@.contains_key(k) implies self@[k]
                        == m[k] by {
                        let j = key_index(es, k);
                        self.lemma_lookup(j);
                        if j != i {
                            before.lemma_lookup(j);
                        }
                    }
                    assert(self@ =~= m);
                }
            },
            None => {
                self.entries.push((key, value));
                proof {
                    let es = self.entries@;
                    let old_es = before.entries@;
                    let n = old_es.len() as int;
                    assert forall|a: int, b: int| 0 <= a < b < es.len() implies (
                    #[trigger] es[a]).0@ != (#[trigger] es[b]).0@ by {
                        if b == n {
                            assert(es[a] == old_es[a]);
                            assert(has_key(old_es, es[a].0@));
                        } else {
                            assert(es[a] == old_es[a] && es[b] == old_es[b]);
                        }
                    }
                    let m = before@.insert(kv, val);
                    assert forall|k: Seq<char>| #[trigger] self@.contains_key(k) == m.contains_key(k) by {
                        if m.contains_key(k) && k != kv {
                            let j = key_index(old_es, k);
                            assert(es[j] == old_es[j]);
                        }
                        if self@.contains_key(k) && k != kv {
                            let j = key_index(es, k);
                            assert(j != n);
                            assert(es[j] == old_es[j]);
                        }
                        if k == kv {
                            assert(es[n].0@ == k);
                        }
                    }
                    assert forall|k: Seq<char>| #[trigger] self@.contains_key(k) implies self@[k]
                        == m[k] by {
                        let j = key_index(es, k);
                        self.lemma_lookup(j);
                        if k != kv {
                            assert(j != n);
                            assert(es[j] == old_es[j]);
                            before.lemma_lookup(j);
                        }
                    }
                    assert(self@ =~= m);
                }
            },
        }
    }

    /// Drops the value of `key`, if any.
    pub fn remove(&mut self, key: &str)
        requires
            old(self).wf(),
        ensures
            final(self).wf(),
            final(self)@ == old(self)@.remove(key@),
    {
        match self.find(key) {
            None => {
                assert(self@ =~= self@.remove(key@));
            },
            Some(i) => {
                let ghost before = *self;
                let _ = self.entries.remove(i);
                proof {
                    let es = self.entries@;
                    let old_es = before.entries@;
                    assert forall|a: int| 0 <= a < es.len() implies #[trigger] es[a] == old_es[if a
                        < i {
                        a
                    } else {
                        a + 1
                    }] by {}
                    assert forall|a: int, b: int| 0 <= a < b < es.len() implies (
                    #[trigger] es[a]).0@ != (#[trigger] es[b]).0@ by {
                        let a2 = if a < i { a } else { a + 1 };
                        let b2 = if b < i { b } else { b + 1 };
                        assert(es[a] == old_es[a2] && es[b] == old_es[b2]);
                    }
                    let m = before@.remove(key@);
                    assert forall|k: Seq<char>| #[trigger] self@.contains_key(k) == m.contains_key(k) by {
                        if m.contains_key(k) {
                            let j = key_index(old_es, k);
                            assert(j != i);
                            let j2 = if j < i { j } else { j - 1 };
                            assert(es[j2] == old_es[j]);
                        }
                        if self@.contains_key(k) {
                            let j = key_index(es, k);
                            let j2 = if j < i { j } else { j + 1 };
                            assert(es[j] == old_es[j2]);
                            if k == key@ {
                                if j2 < i {
                                    assert(old_es[j2].0@ != old_es[i as int].0@);
                                } else {
                                    assert(old_es[i as int].0@ != old_es[j2].0@);
                                }
                            }
                        }
                    }
                    assert forall|k: Seq<char>| #[trigger] self@.contains_key(k) implies self@[k]
                        == m[k] by {
                        let j = key_index(es, k);
                        self.lemma_lookup(j);
                        let j2 = if j < i { j } else { j + 1 };
                        assert(es[j] == old_es[j2]);
                        before.lemma_lookup(j2);
                    }
                    assert(self@ =~= m);
                }
            },
        }
    }

    /// Drops every value.
    pub fn clear(&mut self)
        ensures
            final(self).wf(),
            final(self)@ == Map::<Seq<char>, V>::empty(),
    {
        self.entries.clear();
        assert(self@ =~= Map::<Seq<char>, V>::empty());
    }
}

} // verus!
