//! A map keyed by text, kept as a vector of entries with one entry per
//! key, and viewed as a mathematical map from texts to values.

use vstd::prelude::*;

verus! {

/// A map keyed by text, holding one entry per key.
pub struct NameMap<S> {
    entries: Vec<(String, S)>,
    pending: Ghost<Map<Seq<char>, S>>,
}

impl<S> View for NameMap<S> {
    type V = Map<Seq<char>, S>;

    closed spec fn view(&self) -> Map<Seq<char>, S> {
        self.pending@
    }
}

impl<S> NameMap<S> {
    /// The entries and the map agree, with one entry per key.
    pub closed spec fn wf(&self) -> bool {
        &&& self.pending@.dom().finite()
        &&& self.entries@.len() == self.pending@.dom().len()
        &&& forall|i: int|
            #![trigger self.entries@[i]]
            0 <= i < self.entries@.len() ==> {
                &&& self.pending@.contains_key(self.entries@[i].0@)
                &&& self.pending@[self.entries@[i].0@] == self.entries@[i].1
            }
        &&& forall|i: int, j: int|
            #![trigger self.entries@[i], self.entries@[j]]
            0 <= i < j < self.entries@.len() ==> self.entries@[i].0@ != self.entries@[j].0@
        &&& forall|k: Seq<char>|
            #[trigger] self.pending@.contains_key(k) ==> exists|i: int|
                0 <= i < self.entries@.len() && #[trigger] self.entries@[i].0@ == k
    }

    /// An empty map.
    pub fn new() -> (r: Self)
        ensures
            r.wf(),
            r@ == Map::<Seq<char>, S>::empty(),
    {
        NameMap { entries: Vec::new(), pending: Ghost(Map::empty()) }
    }

    /// The index of the entry for `key`, if there is one.
    fn find(&self, key: &String) -> (idx: Option<usize>)
        requires
            self.wf(),
        ensures
            match idx {
                Some(i) => i < self.entries@.len() && self.entries@[i as int].0@ == key@,
                None => !self@.contains_key(key@),
            },
    {
        let mut i: usize = 0;
        while i < self.entries.len()
            invariant
                self.wf(),
                i <= self.entries@.len(),
                forall|j: int| 0 <= j < i ==> #[trigger] self.entries@[j].0@ != key@,
            decreases self.entries@.len() - i,
        {
            if self.entries[i].0 == *key {
                return Some(i);
            }
            i = i + 1;
        }
        None
    }

    /// Removes the entry at `i` and returns its sender.
    fn take_at(&mut self, i: usize) -> (s: S)
        requires
            old(self).wf(),
            i < old(self).entries@.len(),
        ensures
            final(self).wf(),
            s == old(self)@[old(self).entries@[i as int].0@],
            final(self)@ == old(self)@.remove(old(self).entries@[i as int].0@),
    {
        let ghost key = self.entries@[i as int].0@;
        let ghost old_entries = self.entries@;
        let ghost old_map = self.pending@;
        let (_k, s) = self.entries.remove(i);
        self.pending = Ghost(old_map.remove(key));
        proof {
            assert forall|a: int|
                #![trigger self.entries@[a]]
                0 <= a < self.entries@.len() implies {
                    &&& self.pending@.contains_key(self.entries@[a].0@)
                    &&& self.pending@[self.entries@[a].0@] == self.entries@[a].1
                } by {
                if a < i {
                    assert(self.entries@[a] == old_entries[a]);
                    assert(old_entries[a].0@ != key);
                } else {
                    assert(self.entries@[a] == old_entries[a + 1]);
                    assert(old_entries[i as int].0@ != old_entries[a + 1].0@);
                }
            }
            assert forall|a: int, b: int|
                #![trigger self.entries@[a], self.entries@[b]]
                0 <= a < b < self.entries@.len() implies self.entries@[a].0@
                    != self.entries@[b].0@ by {
                let oa = if a < i { a } else { a + 1 };
                let ob = if b < i { b } else { b + 1 };
                assert(self.entries@[a] == old_entries[oa]);
                assert(self.entries@[b] == old_entries[ob]);
                assert(old_entries[oa].0@ != old_entries[ob].0@);
            }
            assert forall|k: Seq<char>| #[trigger] self.pending@.contains_key(k) implies exists|a: int|
                0 <= a < self.entries@.len() && #[trigger] self.entries@[a].0@ == k by {
                assert(old_map.contains_key(k));
                let oi = choose|oi: int| 0 <= oi < old_entries.len() && #[trigger] old_entries[oi].0@ == k;
                assert(oi != i);
                if oi < i {
                    assert(self.entries@[oi] == old_entries[oi]);
                } else {
                    assert(self.entries@[oi - 1] == old_entries[oi]);
                }
            }
        }
        s
    }

    /// Puts `value` under `key`, replacing any earlier entry.
    pub fn insert(&mut self, key: String, value: S)
        requires
            old(self).wf(),
        ensures
            final(self).wf(),
            final(self)@ == old(self)@.insert(key@, value),
    {
        let ghost target = old(self)@.insert(key@, value);
        match self.find(&key) {
            Some(i) => {
                let _ = self.take_at(i);
            },
            None => {
                assert(old(self)@.remove(key@) =~= old(self)@);
            },
        }
        assert(self.pending@ == old(self)@.remove(key@));
        let ghost before_entries = self.entries@;
        let ghost before_map = self.pending@;
        assert(!before_map.contains_key(key@));
        let ghost kv = key@;
        self.entries.push((key, value));
        self.pending = Ghost(before_map.insert(kv, value));
        proof {
            let n = before_entries.len();
            assert forall|a: int|
                #![trigger self.entries@[a]]
                0 <= a < self.entries@.len() implies {
                    &&& self.pending@.contains_key(self.entries@[a].0@)
                    &&& self.pending@[self.entries@[a].0@] == self.entries@[a].1
                } by {
                if a < n {
                    assert(self.entries@[a] == before_entries[a]);
                    assert(before_entries[a].0@ != kv);
                }
            }
            assert forall|a: int, b: int|
                #![trigger self.entries@[a], self.entries@[b]]
                0 <= a < b < self.entries@.len() implies self.entries@[a].0@
                    != self.entries@[b].0@ by {
                assert(self.entries@[a] == before_entries[a]);
                if b < n {
                    assert(self.entries@[b] == before_entries[b]);
                } else {
                    assert(before_map.contains_key(before_entries[a].0@));
                }
            }
            assert forall|k: Seq<char>| #[trigger] self.pending@.contains_key(k) implies exists|a: int|
                0 <= a < self.entries@.len() && #[trigger] self.entries@[a].0@ == k by {
                if k == kv {
                    assert(self.entries@[n as int].0@ == kv);
                } else {
                    assert(before_map.contains_key(k));
                    let oi = choose|oi: int| 0 <= oi < before_entries.len() && #[trigger] before_entries[oi].0@ == k;
                    assert(self.entries@[oi] == before_entries[oi]);
                }
            }
            assert(self.pending@ =~= target);
        }
    }

    /// A well-formed map has finitely many keys.
    pub proof fn lemma_finite(&self)
        requires
            self.wf(),
        ensures
            self@.dom().finite(),
    {
    }

    /// The number of entries.
    pub fn len(&self) -> (n: usize)
        requires
            self.wf(),
        ensures
            n == self@.len(),
    {
        self.entries.len()
    }

    /// Removes every entry.
    pub fn clear(&mut self)
        ensures
            final(self).wf(),
            final(self)@ == Map::<Seq<char>, S>::empty(),
    {
        self.entries.clear();
        self.pending = Ghost(Map::empty());
    }

    /// The value under `key`, if any.
    pub fn get(&self, key: &str) -> (r: Option<&S>)
        requires
            self.wf(),
        ensures
            match r {
                Some(v) => self@.contains_key(key@) && *v == self@[key@],
                None => !self@.contains_key(key@),
            },
    {
        let k = String::from_str(key);
        match self.find(&k) {
            Some(i) => Some(&self.entries[i].1),
            None => None,
        }
    }

    /// Whether `key` has an entry.
    pub fn contains(&self, key: &str) -> (b: bool)
        requires
            self.wf(),
        ensures
            b == self@.contains_key(key@),
    {
        let k = String::from_str(key);
        self.find(&k).is_some()
    }

    /// Removes the entry under `key`, returning its value if there was one.
    pub fn remove(&mut self, key: &str) -> (removed: Option<S>)
        requires
            old(self).wf(),
        ensures
            final(self).wf(),
            final(self)@ == old(self)@.remove(key@),
            removed == (if old(self)@.contains_key(key@) {
                Some(old(self)@[key@])
            } else {
                None
            }),
    {
        let k = String::from_str(key);
        match self.find(&k) {
            Some(i) => Some(self.take_at(i)),
            None => {
                assert(self@.remove(key@) =~= self@);
                None
            },
        }
    }
}

impl<S: Copy> NameMap<S> {
    /// A copy of this map with the same contents.
    pub fn copy(&self) -> (r: Self)
        requires
            self.wf(),
        ensures
            r.wf(),
            r@ == self@,
    {
        let mut out: NameMap<S> = NameMap::new();
        let mut i: usize = 0;
        while i < self.entries.len()
            invariant
                self.wf(),
                out.wf(),
                i <= self.entries@.len(),
                out@ == Map::new(
                    |k: Seq<char>| exists|j: int| 0 <= j < i && #[trigger] self.entries@[j].0@ == k,
                    |k: Seq<char>| self@[k],
                ),
            decreases self.entries@.len() - i,
        {
            let key = self.entries[i].0.clone();
            let v = self.entries[i].1;
            let ghost prev = out@;
            out.insert(key, v);
            proof {
                assert(out@ =~= Map::new(
                    |k: Seq<char>| exists|j: int| 0 <= j < i + 1 && #[trigger] self.entries@[j].0@ == k,
                    |k: Seq<char>| self@[k],
                )) by {
                    assert(self.entries@[i as int].0@ == key@);
                }
            }
            i = i + 1;
        }
        proof {
            assert(out@ =~= self@);
        }
        out
    }
}

} // verus!
