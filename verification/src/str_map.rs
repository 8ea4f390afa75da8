use vstd::prelude::*;

verus! {

/// A finite map from string keys to values, kept as a list of entries with
/// pairwise distinct keys.
pub struct StrMap<V> {
    entries: Vec<(String, V)>,
}

impl<V> StrMap<V> {
    pub closed spec fn entries(&self) -> Seq<(String, V)> {
        self.entries@
    }

    /// The keys have no duplicates.
    pub closed spec fn wf(&self) -> bool {
        forall|i: int, j: int|
            0 <= i < self.entries@.len() && 0 <= j < self.entries@.len() && i != j
                ==> #[trigger] self.entries@[i].0@ != #[trigger] self.entries@[j].0@
    }

    pub closed spec fn has_key_at(&self, k: Seq<char>, i: int) -> bool {
        0 <= i < self.entries@.len() && self.entries@[i].0@ == k
    }

    pub closed spec fn view(&self) -> Map<Seq<char>, V> {
        Map::new(
            |k: Seq<char>| exists|i: int| self.has_key_at(k, i),
            |k: Seq<char>| self.entries@[choose|i: int| self.has_key_at(k, i)].1,
        )
    }

    proof fn lemma_view_at(&self, i: int)
        requires
            self.wf(),
            0 <= i < self.entries@.len(),
        ensures
            self.view().contains_key(self.entries@[i].0@),
            self.view()[self.entries@[i].0@] == self.entries@[i].1,
    {
        let k = self.entries@[i].0@;
        assert(self.has_key_at(k, i));
        let j = choose|j: int| self.has_key_at(k, j);
        assert(self.has_key_at(k, j));
        if i != j {
            assert(self.entries@[i].0@ != self.entries@[j].0@);
        }
    }

    pub fn new() -> (r: Self)
        ensures
            r.wf(),
            r.view() == Map::<Seq<char>, V>::empty(),
            r.entries() == Seq::<(String, V)>::empty(),
    {
        let r = StrMap { entries: Vec::new() };
        assert(r.view() =~= Map::<Seq<char>, V>::empty());
        r
    }

    fn find(&self, key: &str) -> (r: Option<usize>)
        requires
            self.wf(),
        ensures
            match r {
                Some(i) => self.has_key_at(key@, i as int),
                None => !self.view().contains_key(key@),
            },
    {
        let k = key.to_owned();
        let mut i: usize = 0;
        while i < self.entries.len()
            invariant
                k@ == key@,
                i <= self.entries@.len(),
                forall|j: int| 0 <= j < i ==> self.entries@[j].0@ != key@,
            decreases self.entries@.len() - i,
        {
            if self.entries[i].0 == k {
                return Some(i);
            }
            i = i + 1;
        }
        None
    }

    /// The map has finitely many keys, one per entry.
    pub(crate) proof fn lemma_dom_len(&self)
        requires
            self.wf(),
        ensures
            self.view().dom().finite(),
            self.view().dom().len() == self.entries().len(),
    {
        let keys = self.entries@.map_values(|e: (String, V)| e.0@);
        assert(self.view().dom() =~= keys.to_set()) by {
            assert forall|k: Seq<char>| self.view().dom().contains(k) implies keys.to_set().contains(k) by {
                let i = choose|i: int| self.has_key_at(k, i);
                assert(keys[i] == k);
            }
            assert forall|k: Seq<char>| keys.to_set().contains(k) implies self.view().dom().contains(k) by {
                let i = choose|i: int| 0 <= i < keys.len() && keys[i] == k;
                assert(self.has_key_at(k, i));
            }
        }
        assert(keys.no_duplicates()) by {
            assert forall|i: int, j: int| 0 <= i < keys.len() && 0 <= j < keys.len() && i != j
                implies keys[i] != keys[j] by {
                assert(self.entries@[i].0@ != self.entries@[j].0@);
            }
        }
        keys.unique_seq_to_set();
        vstd::seq_lib::seq_to_set_is_finite(keys);
    }

    /// Number of keys in the map.
    pub fn len(&self) -> (r: usize)
        requires
            self.wf(),
        ensures
            r == self.view().len(),
            r == self.entries().len(),
    {
        proof { self.lemma_dom_len(); }
        self.entries.len()
    }

    pub fn is_empty(&self) -> (r: bool)
        requires
            self.wf(),
        ensures
            r == (self.view().len() == 0),
    {
        proof { self.lemma_dom_len(); }
        self.entries.len() == 0
    }

    /// The entry at position `i` of the internal order.
    pub fn entry_at(&self, i: usize) -> (r: (&String, &V))
        requires
            self.wf(),
            i < self.entries().len(),
        ensures
            *r.0 == self.entries()[i as int].0,
            *r.1 == self.entries()[i as int].1,
            self.view().contains_key(r.0@),
            self.view()[r.0@] == *r.1,
    {
        proof { self.lemma_view_at(i as int); }
        (&self.entries[i].0, &self.entries[i].1)
    }

    pub fn get(&self, key: &str) -> (r: Option<&V>)
        requires
            self.wf(),
        ensures
            r == (if self.view().contains_key(key@) { Some(&self.view()[key@]) } else { None }),
    {
        match self.find(key) {
            Some(i) => {
                proof { self.lemma_view_at(i as int); }
                Some(&self.entries[i].1)
            },
            None => None,
        }
    }

    /// Removes the entry for `key`, handing back its value.
    pub fn remove(&mut self, key: &str) -> (r: Option<V>)
        requires
            old(self).wf(),
        ensures
            final(self).wf(),
            final(self).view() == old(self).view().remove(key@),
            r == (if old(self).view().contains_key(key@) { Some(old(self).view()[key@]) } else { None }),
            old(self).view().contains_key(key@) ==> exists|i: int|
                #![trigger old(self).entries()[i]]
                {
                    &&& 0 <= i < old(self).entries().len()
                    &&& old(self).entries()[i].0@ == key@
                    &&& old(self).entries()[i].1 == old(self).view()[key@]
                    &&& final(self).entries() == old(self).entries().remove(i)
                },
            !old(self).view().contains_key(key@) ==> final(self).entries() == old(self).entries(),
    {
        match self.find(key) {
            Some(i) => {
                proof { self.lemma_view_at(i as int); }
                let ghost pre = *self;
                let e = self.entries.remove(i);
                proof {
                    Self::lemma_remove_at(pre, *self, i as int);
                    assert(pre.entries@[i as int].0@ == key@);
                    assert(pre.entries@[i as int].1 == pre.view()[key@]);
                    assert(self.entries@ == pre.entries@.remove(i as int));
                    assert(pre.entries()[i as int] == pre.entries@[i as int]);
                }
                Some(e.1)
            },
            None => {
                assert(self.view() =~= self.view().remove(key@));
                None
            },
        }
    }

    proof fn lemma_remove_at(pre: Self, post: Self, i: int)
        requires
            pre.wf(),
            0 <= i < pre.entries@.len(),
            post.entries@ == pre.entries@.remove(i),
        ensures
            post.wf(),
            post.view() == pre.view().remove(pre.entries@[i].0@),
    {
        let key = pre.entries@[i].0@;
        assert forall|a: int, b: int|
            0 <= a < post.entries@.len() && 0 <= b < post.entries@.len() && a != b
            implies #[trigger] post.entries@[a].0@ != #[trigger] post.entries@[b].0@ by {
            let a2 = if a < i { a } else { a + 1 };
            let b2 = if b < i { b } else { b + 1 };
            assert(pre.entries@[a2].0@ != pre.entries@[b2].0@);
        }
        assert forall|k: Seq<char>| #![auto] post.view().contains_key(k)
            <==> pre.view().remove(key).contains_key(k) by {
            if post.view().contains_key(k) {
                let j = choose|j: int| post.has_key_at(k, j);
                let j2 = if j < i { j } else { j + 1 };
                assert(pre.has_key_at(k, j2));
                assert(pre.entries@[j2].0@ != pre.entries@[i].0@);
            }
            if pre.view().remove(key).contains_key(k) {
                let j = choose|j: int| pre.has_key_at(k, j);
                assert(j != i);
                let j2 = if j < i { j } else { j - 1 };
                assert(post.has_key_at(k, j2));
            }
        }
        assert forall|k: Seq<char>| #![auto] post.view().contains_key(k)
            implies post.view()[k] == pre.view()[k] by {
            let j = choose|j: int| post.has_key_at(k, j);
            post.lemma_view_at(j);
            let j2 = if j < i { j } else { j + 1 };
            pre.lemma_view_at(j2);
        }
        assert(post.view() =~= pre.view().remove(key));
    }

    proof fn lemma_push_fresh(pre: Self, post: Self, k: Seq<char>, v: V)
        requires
            pre.wf(),
            !pre.view().contains_key(k),
            post.entries@.len() == pre.entries@.len() + 1,
            post.entries@.drop_last() == pre.entries@,
            post.entries@.last().0@ == k,
            post.entries@.last().1 == v,
        ensures
            post.wf(),
            post.view() == pre.view().insert(k, v),
    {
        let n = pre.entries@.len() as int;
        assert forall|j: int| 0 <= j < n implies #[trigger] post.entries@[j] == pre.entries@[j] by {
            assert(post.entries@.drop_last()[j] == post.entries@[j]);
        }
        assert forall|j: int| 0 <= j < n implies #[trigger] pre.entries@[j].0@ != k by {
            if pre.entries@[j].0@ == k {
                assert(pre.has_key_at(k, j));
            }
        }
        assert forall|a: int, b: int|
            0 <= a < post.entries@.len() && 0 <= b < post.entries@.len() && a != b
            implies #[trigger] post.entries@[a].0@ != #[trigger] post.entries@[b].0@ by {
            if a < n && b < n {
                assert(pre.entries@[a].0@ != pre.entries@[b].0@);
            } else if a < n {
                assert(pre.entries@[a].0@ != k);
            } else {
                assert(pre.entries@[b].0@ != k);
            }
        }
        assert forall|kk: Seq<char>| #![auto] post.view().contains_key(kk)
            <==> pre.view().insert(k, v).contains_key(kk) by {
            if post.view().contains_key(kk) && kk != k {
                let j = choose|j: int| post.has_key_at(kk, j);
                assert(j != n);
                assert(pre.has_key_at(kk, j));
            }
            if pre.view().contains_key(kk) {
                let j = choose|j: int| pre.has_key_at(kk, j);
                assert(post.has_key_at(kk, j));
            }
            if kk == k {
                assert(post.has_key_at(kk, n));
            }
        }
        assert forall|kk: Seq<char>| #![auto] post.view().contains_key(kk)
            implies post.view()[kk] == pre.view().insert(k, v)[kk] by {
            let j = choose|j: int| post.has_key_at(kk, j);
            post.lemma_view_at(j);
            if j < n {
                pre.lemma_view_at(j);
            }
        }
        assert(post.view() =~= pre.view().insert(k, v));
    }

    /// Inserts `value` under `key`, handing back the value it replaces.
    pub fn insert(&mut self, key: String, value: V) -> (r: Option<V>)
        requires
            old(self).wf(),
        ensures
            final(self).wf(),
            final(self).view() == old(self).view().insert(key@, value),
            r == (if old(self).view().contains_key(key@) { Some(old(self).view()[key@]) } else { None }),
            old(self).view().contains_key(key@) ==> exists|i: int|
                #![trigger old(self).entries()[i]]
                {
                    &&& 0 <= i < old(self).entries().len()
                    &&& old(self).entries()[i].0@ == key@
                    &&& final(self).entries() == old(self).entries().remove(i).push((key, value))
                },
            !old(self).view().contains_key(key@) ==> final(self).entries() == old(self).entries().push((key, value)),
    {
        let ghost kv = (key, value);
        let r = self.remove(key.as_str());
        let ghost mid = *self;
        let ghost k = key@;
        self.entries.push((key, value));
        proof {
            assert(self.entries@ == mid.entries@.push(kv));
            assert(self.entries@.drop_last() =~= mid.entries@);
            Self::lemma_push_fresh(mid, *self, k, value);
            assert(mid.view().insert(k, value) =~= old(self).view().insert(k, value));
        }
        r
    }

    /// Removes every entry.
    pub fn clear(&mut self)
        requires
            old(self).wf(),
        ensures
            final(self).wf(),
            final(self).view() == Map::<Seq<char>, V>::empty(),
    {
        self.entries.clear();
        assert(self.view() =~= Map::<Seq<char>, V>::empty());
    }

    /// The keys, each once, in the internal order.
    pub fn keys(&self) -> (r: Vec<String>)
        requires
            self.wf(),
        ensures
            r@.len() == self.view().len(),
            forall|i: int| 0 <= i < r@.len() ==> self.view().contains_key(#[trigger] r@[i]@),
            forall|k: Seq<char>| self.view().contains_key(k) ==> exists|i: int| 0 <= i < r@.len() && #[trigger] r@[i]@ == k,
            forall|i: int, j: int| 0 <= i < r@.len() && 0 <= j < r@.len() && i != j ==> #[trigger] r@[i]@ != #[trigger] r@[j]@,
    {
        proof { self.lemma_dom_len(); }
        let mut r: Vec<String> = Vec::new();
        let mut i: usize = 0;
        while i < self.entries.len()
            invariant
                self.wf(),
                i <= self.entries@.len(),
                r@.len() == i,
                forall|j: int| 0 <= j < i ==> #[trigger] r@[j]@ == self.entries@[j].0@,
            decreases self.entries@.len() - i,
        {
            r.push(self.entries[i].0.clone());
            i = i + 1;
        }
        proof {
            assert forall|j: int| 0 <= j < r@.len() implies self.view().contains_key(#[trigger] r@[j]@) by {
                self.lemma_view_at(j);
            }
            assert forall|k: Seq<char>| self.view().contains_key(k) implies exists|j: int| 0 <= j < r@.len() && #[trigger] r@[j]@ == k by {
                let j = choose|j: int| self.has_key_at(k, j);
                assert(r@[j]@ == k);
            }
            assert forall|a: int, b: int| 0 <= a < r@.len() && 0 <= b < r@.len() && a != b implies #[trigger] r@[a]@ != #[trigger] r@[b]@ by {
                assert(self.entries@[a].0@ != self.entries@[b].0@);
            }
        }
        r
    }
    pub fn contains_key(&self, key: &str) -> (r: bool)
        requires
            self.wf(),
        ensures
            r == self.view().contains_key(key@),
    {
        match self.find(key) {
            Some(i) => {
                proof { self.lemma_view_at(i as int); }
                true
            },
            None => false,
        }
    }

    proof fn lemma_set_value(pre: Self, post: Self, i: int, v: V)
        requires
            pre.wf(),
            0 <= i < pre.entries@.len(),
            post.entries@.len() == pre.entries@.len(),
            forall|j: int| 0 <= j < pre.entries@.len() && j != i ==> #[trigger] post.entries@[j] == pre.entries@[j],
            post.entries@[i].0 == pre.entries@[i].0,
            post.entries@[i].1 == v,
        ensures
            post.wf(),
            post.view() == pre.view().insert(pre.entries@[i].0@, v),
    {
        let key = pre.entries@[i].0@;
        assert forall|a: int, b: int|
            0 <= a < post.entries@.len() && 0 <= b < post.entries@.len() && a != b
            implies #[trigger] post.entries@[a].0@ != #[trigger] post.entries@[b].0@ by {
            assert(pre.entries@[a].0@ != pre.entries@[b].0@);
        }
        assert forall|k: Seq<char>| #![auto] post.view().contains_key(k)
            <==> pre.view().insert(key, v).contains_key(k) by {
            if post.view().contains_key(k) {
                let j = choose|j: int| post.has_key_at(k, j);
                assert(pre.has_key_at(k, j));
            }
            if pre.view().contains_key(k) {
                let j = choose|j: int| pre.has_key_at(k, j);
                assert(post.has_key_at(k, j));
            }
            if k == key {
                assert(post.has_key_at(k, i));
            }
        }
        assert forall|k: Seq<char>| #![auto] post.view().contains_key(k)
            implies post.view()[k] == pre.view().insert(key, v)[k] by {
            let j = choose|j: int| post.has_key_at(k, j);
            post.lemma_view_at(j);
            if j != i {
                pre.lemma_view_at(j);
            }
        }
        assert(post.view() =~= pre.view().insert(key, v));
    }

    /// Mutable access to the value of `key`, if present.
    pub fn get_mut(&mut self, key: &str) -> (r: Option<&mut V>)
        requires
            old(self).wf(),
        ensures
            final(self).wf(),
            match r {
                Some(v) => {
                    &&& old(self).view().contains_key(key@)
                    &&& *v == old(self).view()[key@]
                    &&& final(self).view() == old(self).view().insert(key@, *final(v))
                },
                None => !old(self).view().contains_key(key@) && final(self).view() == old(self).view(),
            },
    {
        match self.find(key) {
            Some(i) => {
                proof { self.lemma_view_at(i as int); }
                let ghost pre = *self;
                proof {
                    assert forall|post: Self|
                        #![trigger post.view()]
                        #![trigger post.wf()]
                        post.entries@.len() == pre.entries@.len() && post.entries@[i as int].0
                            == pre.entries@[i as int].0 && (forall|j: int|
                            0 <= j < pre.entries@.len() && j != i ==> #[trigger] post.entries@[j]
                                == pre.entries@[j]) implies post.wf() && post.view() == pre.view().insert(
                        key@,
                        post.entries@[i as int].1,
                    ) by {
                        Self::lemma_set_value(pre, post, i as int, post.entries@[i as int].1);
                    }
                }
                let entry = &mut self.entries[i];
                let v = &mut entry.1;
                proof {
                    assert(*v == pre.view()[key@]);
                }
                Some(v)
            },
            None => None,
        }
    }
}

} // verus!
