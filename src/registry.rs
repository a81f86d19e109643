//! In-memory registries keyed by string: the active runs with their abort
//! signals, the running subprocesses, and the per-repository locks.

use vstd::prelude::*;

use crate::text::eq_str;

verus! {

/// A map from string keys to values, each key held once.
pub struct Registry<V> {
    keys: Vec<String>,
    vals: Vec<V>,
    contents: Ghost<Map<Seq<char>, V>>,
}

impl<V> View for Registry<V> {
    type V = Map<Seq<char>, V>;

    closed spec fn view(&self) -> Map<Seq<char>, V> {
        self.contents@
    }
}

impl<V> Registry<V> {
    /// Keys are distinct, each paired with its value, and nothing else is held.
    pub closed spec fn wf(&self) -> bool {
        &&& self.keys@.len() == self.vals@.len()
        &&& forall|i: int, j: int|
            0 <= i < j < self.keys@.len() ==> self.keys@[i]@ != self.keys@[j]@
        &&& forall|i: int|
            0 <= i < self.keys@.len() ==> #[trigger] self.contents@.contains_key(self.keys@[i]@)
                && self.contents@[self.keys@[i]@] == self.vals@[i]
        &&& forall|k: Seq<char>|
            #[trigger] self.contents@.contains_key(k) ==> exists|i: int|
                0 <= i < self.keys@.len() && self.keys@[i]@ == k
    }

    /// An empty registry.
    pub fn new() -> (r: Self)
        ensures
            r.wf(),
            r@ == Map::<Seq<char>, V>::empty(),
    {
        Registry { keys: Vec::new(), vals: Vec::new(), contents: Ghost(Map::empty()) }
    }

    fn find(&self, key: &str) -> (r: Option<usize>)
        requires
            self.wf(),
        ensures
            match r {
                Some(i) => i < self.keys@.len() && self.keys@[i as int]@ == key@,
                None => !self@.contains_key(key@),
            },
    {
        let mut i: usize = 0;
        while i < self.keys.len()
            invariant
                self.wf(),
                i <= self.keys@.len(),
                forall|j: int| 0 <= j < i ==> self.keys@[j]@ != key@,
            decreases self.keys@.len() - i,
        {
            if eq_str(self.keys[i].as_str(), key) {
                return Some(i);
            }
            i = i + 1;
        }
        None
    }

    /// Number of keys held.
    pub fn len(&self) -> (r: usize)
        requires
            self.wf(),
        ensures
            r == self@.dom().len(),
    {
        proof {
            self.lemma_dom_len();
        }
        self.keys.len()
    }

    proof fn lemma_dom_len(&self)
        requires
            self.wf(),
        ensures
            self@.dom().len() == self.keys@.len(),
            self@.dom().finite(),
    {
        let ks = self.keys@.map_values(|s: String| s@);
        assert forall|i: int, j: int| 0 <= i < j < ks.len() implies ks[i] != ks[j] by {}
        assert(ks.no_duplicates());
        assert(self@.dom() =~= ks.to_set()) by {
            assert forall|k: Seq<char>| self@.dom().contains(k) implies ks.to_set().contains(k) by {
                let i = choose|i: int| 0 <= i < self.keys@.len() && self.keys@[i]@ == k;
                assert(ks[i] == k);
            }
            assert forall|k: Seq<char>| ks.to_set().contains(k) implies self@.dom().contains(k) by {
                let i = choose|i: int| 0 <= i < ks.len() && ks[i] == k;
                assert(self.contents@.contains_key(self.keys@[i]@));
            }
        }
        ks.unique_seq_to_set();
    }

    /// Whether `key` is held.
    pub fn contains_key(&self, key: &str) -> (r: bool)
        requires
            self.wf(),
        ensures
            r == self@.contains_key(key@),
    {
        match self.find(key) {
            Some(i) => {
                assert(self.contents@.contains_key(self.keys@[i as int]@));
                true
            },
            None => false,
        }
    }

    /// The value held under `key`, if any.
    pub fn get(&self, key: &str) -> (r: Option<&V>)
        requires
            self.wf(),
        ensures
            match r {
                Some(v) => self@.contains_key(key@) && *v == self@[key@],
                None => !self@.contains_key(key@),
            },
    {
        match self.find(key) {
            Some(i) => {
                assert(self.contents@.contains_key(self.keys@[i as int]@));
                Some(&self.vals[i])
            },
            None => None,
        }
    }

    /// Holds `value` under `key`, replacing what was held there.
    pub fn insert(&mut self, key: String, value: V)
        requires
            old(self).wf(),
        ensures
            final(self).wf(),
            final(self)@ == old(self)@.insert(key@, value),
    {
        match self.find(key.as_str()) {
            Some(i) => {
                let ghost k = key@;
                self.vals.set(i, value);
                self.contents = Ghost(self.contents@.insert(k, value));
                assert forall|j: int|
                    0 <= j < self.keys@.len() implies #[trigger] self.contents@.contains_key(
                    self.keys@[j]@,
                ) && self.contents@[self.keys@[j]@] == self.vals@[j] by {
                    if j != i {
                        assert(self.keys@[j]@ != self.keys@[i as int]@);
                    }
                }
            },
            None => {
                let ghost k = key@;
                self.keys.push(key);
                self.vals.push(value);
                self.contents = Ghost(self.contents@.insert(k, value));
                assert forall|k2: Seq<char>| #[trigger] self.contents@.contains_key(k2) implies exists|i: int|
                    0 <= i < self.keys@.len() && self.keys@[i]@ == k2 by {
                    if k2 == k {
                        assert(self.keys@[self.keys@.len() - 1]@ == k2);
                    } else {
                        assert(old(self).contents@.contains_key(k2));
                        let i = choose|i: int| 0 <= i < old(self).keys@.len() && old(self).keys@[i]@ == k2;
                        assert(self.keys@[i]@ == k2);
                    }
                }
            },
        }
    }

    /// Removes `key`, handing back what was held under it.
    pub fn remove(&mut self, key: &str) -> (r: Option<V>)
        requires
            old(self).wf(),
        ensures
            final(self).wf(),
            final(self)@ == old(self)@.remove(key@),
            match r {
                Some(v) => old(self)@.contains_key(key@) && v == old(self)@[key@],
                None => !old(self)@.contains_key(key@),
            },
    {
        match self.find(key) {
            Some(i) => {
                let ghost k = key@;
                let ghost old_keys = self.keys@;
                let ghost old_vals = self.vals@;
                assert(self.contents@.contains_key(self.keys@[i as int]@));
                self.keys.remove(i);
                let v = self.vals.remove(i);
                self.contents = Ghost(self.contents@.remove(k));
                assert forall|a: int, b: int|
                    0 <= a < b < self.keys@.len() implies self.keys@[a]@ != self.keys@[b]@ by {
                    let oa = if a < i { a } else { a + 1 };
                    let ob = if b < i { b } else { b + 1 };
                    assert(self.keys@[a] == old_keys[oa]);
                    assert(self.keys@[b] == old_keys[ob]);
                }
                assert forall|j: int|
                    0 <= j < self.keys@.len() implies #[trigger] self.contents@.contains_key(
                    self.keys@[j]@,
                ) && self.contents@[self.keys@[j]@] == self.vals@[j] by {
                    let oj = if j < i { j } else { j + 1 };
                    assert(self.keys@[j] == old_keys[oj]);
                    assert(self.vals@[j] == old_vals[oj]);
                    assert(old_keys[oj]@ != old_keys[i as int]@);
                    assert(old(self).contents@.contains_key(old_keys[oj]@));
                }
                assert forall|k2: Seq<char>| #[trigger] self.contents@.contains_key(k2) implies exists|j: int|
                    0 <= j < self.keys@.len() && self.keys@[j]@ == k2 by {
                    assert(old(self).contents@.contains_key(k2));
                    let oj = choose|oj: int| 0 <= oj < old_keys.len() && old_keys[oj]@ == k2;
                    assert(oj != i);
                    let j = if oj < i { oj } else { oj - 1 };
                    assert(self.keys@[j] == old_keys[oj]);
                }
                Some(v)
            },
            None => {
                assert(self.contents@.remove(key@) =~= self.contents@);
                None
            },
        }
    }
}

} // verus!
