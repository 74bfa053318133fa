//! A table keyed by strings: a vector of pairs whose keys are unique, seen
//! as a map from key to value.
use vstd::prelude::*;

verus! {

/// Entries keyed by a string, each key at most once.
pub struct KeyedTable<V> {
    entries: Vec<(String, V)>,
    model: Ghost<Map<Seq<char>, V>>,
}

impl<V> View for KeyedTable<V> {
    type V = Map<Seq<char>, V>;

    closed spec fn view(&self) -> Map<Seq<char>, V> {
        self.model@
    }
}

impl<V> KeyedTable<V> {
    /// Keys are unique, and the map holds exactly the entries' pairs.
    pub closed spec fn wf(&self) -> bool {
        &&& forall|i: int, j: int|
            0 <= i < j < self.entries.len() ==> #[trigger] self.entries[i].0@
                != #[trigger] self.entries[j].0@
        &&& forall|i: int|
            0 <= i < self.entries.len() ==> self.model@.contains_key(#[trigger] self.entries[i].0@)
                && self.model@[self.entries[i].0@] == self.entries[i].1
        &&& forall|k: Seq<char>|
            #[trigger] self.model@.contains_key(k) ==> exists|i: int|
                0 <= i < self.entries.len() && #[trigger] self.entries[i].0@ == k
    }

    pub fn new() -> (r: Self)
        ensures
            r.wf(),
            r@ == Map::<Seq<char>, V>::empty(),
    {
        KeyedTable { entries: Vec::new(), model: Ghost(Map::empty()) }
    }

    /// Number of keys held.
    pub fn len(&self) -> (r: usize)
        requires
            self.wf(),
        ensures
            r == self@.len(),
    {
        proof {
            self.lemma_dom_len();
        }
        self.entries.len()
    }

    proof fn lemma_dom_len(&self)
        requires
            self.wf(),
        ensures
            self@.dom().finite(),
            self@.dom().len() == self.entries.len(),
    {
        let keys = Seq::new(self.entries.len() as nat, |i: int| self.entries[i].0@);
        assert(keys.to_set() =~= self@.dom()) by {
            assert forall|k: Seq<char>| self@.dom().contains(k) implies keys.to_set().contains(
                k,
            ) by {
                let i = choose|i: int| 0 <= i < self.entries.len() && self.entries[i].0@ == k;
                assert(keys[i] == k);
            }
        }
        assert(keys.no_duplicates());
        keys.unique_seq_to_set();
    }

    /// Position of `key` among the entries.
    fn find(&self, key: &String) -> (r: Option<usize>)
        requires
            self.wf(),
        ensures
            match r {
                Some(i) => i < self.entries.len() && self.entries[i as int].0@ == key@,
                None => !self@.contains_key(key@),
            },
    {
        let mut i: usize = 0;
        while i < self.entries.len()
            invariant
                self.wf(),
                i <= self.entries.len(),
                forall|j: int| 0 <= j < i ==> self.entries[j].0@ != key@,
            decreases self.entries.len() - i,
        {
            if self.entries[i].0 == *key {
                return Some(i);
            }
            i = i + 1;
        }
        None
    }

    /// The value held for `key`, if any.
    pub fn get(&self, key: &String) -> (r: Option<&V>)
        requires
            self.wf(),
        ensures
            match r {
                Some(v) => self@.contains_key(key@) && *v == self@[key@],
                None => !self@.contains_key(key@),
            },
    {
        match self.find(key) {
            Some(i) => Some(&self.entries[i].1),
            None => None,
        }
    }

    /// The keys held, each once.
    pub fn keys(&self) -> (r: Vec<String>)
        requires
            self.wf(),
        ensures
            forall|i: int| 0 <= i < r.len() ==> self@.contains_key(#[trigger] r[i]@),
            forall|k: Seq<char>| #[trigger]
                self@.contains_key(k) ==> exists|i: int| 0 <= i < r.len() && #[trigger] r[i]@ == k,
            forall|i: int, j: int| 0 <= i < j < r.len() ==> #[trigger] r[i]@ != #[trigger] r[j]@,
    {
        let mut r: Vec<String> = Vec::new();
        let mut i: usize = 0;
        while i < self.entries.len()
            invariant
                self.wf(),
                i <= self.entries.len(),
                r.len() == i,
                forall|j: int| 0 <= j < i ==> #[trigger] r[j]@ == self.entries[j].0@,
            decreases self.entries.len() - i,
        {
            r.push(self.entries[i].0.clone());
            i = i + 1;
        }
        proof {
            assert forall|k: Seq<char>| #[trigger] self@.contains_key(k) implies exists|j: int|
                0 <= j < r.len() && #[trigger] r[j]@ == k by {
                let j = choose|j: int| 0 <= j < self.entries.len() && #[trigger] self.entries[j].0@ == k;
                assert(r[j]@ == k);
            }
            assert forall|a: int, b: int| 0 <= a < b < r.len() implies #[trigger] r[a]@
                != #[trigger] r[b]@ by {
                assert(self.entries[a].0@ != self.entries[b].0@);
            }
        }
        r
    }

    /// Sets the value for `key`, replacing any earlier one.
    pub fn insert(&mut self, key: String, value: V)
        requires
            old(self).wf(),
        ensures
            final(self).wf(),
            final(self)@ == old(self)@.insert(key@, value),
    {
        self.remove(&key);
        let ghost before = self.entries@;
        let ghost k = key@;
        self.entries.push((key, value));
        self.model = Ghost(self.model@.insert(k, value));
        proof {
            assert(self.entries@ == before.push(self.entries@.last()));
            assert forall|c: Seq<char>| #[trigger] self.model@.contains_key(c) implies exists|i: int|
                0 <= i < self.entries.len() && #[trigger] self.entries[i].0@ == c by {
                if c != k {
                    let i = choose|i: int| 0 <= i < before.len() && #[trigger] before[i].0@ == c;
                    assert(self.entries[i].0@ == c);
                } else {
                    assert(self.entries[self.entries.len() - 1].0@ == c);
                }
            }
        }
    }

    /// Removes `key` and its value, if present.
    pub fn remove(&mut self, key: &String)
        requires
            old(self).wf(),
        ensures
            final(self).wf(),
            final(self)@ == old(self)@.remove(key@),
    {
        match self.find(key) {
            None => {
                proof {
                    assert(self.model@.remove(key@) =~= self.model@);
                }
            },
            Some(i) => {
                let ghost before = self.entries@;
                let ghost n = before.len();
                self.entries.swap_remove(i);
                self.model = Ghost(self.model@.remove(key@));
                proof {
                    assert forall|a: int, b: int|
                        0 <= a < b < self.entries.len() implies #[trigger] self.entries[a].0@
                        != #[trigger] self.entries[b].0@ by {
                        let a0 = if a == i {
                            n - 1
                        } else {
                            a
                        };
                        let b0 = if b == i {
                            n - 1
                        } else {
                            b
                        };
                        assert(self.entries[a] == before[a0]);
                        assert(self.entries[b] == before[b0]);
                        assert(a0 != b0);
                        if a0 < b0 {
                            assert(before[a0].0@ != before[b0].0@);
                        } else {
                            assert(before[b0].0@ != before[a0].0@);
                        }
                    }
                    assert forall|a: int| 0 <= a < self.entries.len() implies self.model@.contains_key(
                        #[trigger] self.entries[a].0@,
                    ) && self.model@[self.entries[a].0@] == self.entries[a].1 by {
                        let a0 = if a == i {
                            n - 1
                        } else {
                            a
                        };
                        assert(self.entries[a] == before[a0]);
                        assert(a0 != i);
                        if a0 < i {
                            assert(before[a0].0@ != before[i as int].0@);
                        } else {
                            assert(before[i as int].0@ != before[a0].0@);
                        }
                    }
                    assert forall|c: Seq<char>| #[trigger] self.model@.contains_key(c) implies exists|
                        a: int,
                    | 0 <= a < self.entries.len() && #[trigger] self.entries[a].0@ == c by {
                        let a0 = choose|a0: int| 0 <= a0 < n && #[trigger] before[a0].0@ == c;
                        assert(a0 != i);
                        if a0 == n - 1 {
                            assert(self.entries[i as int].0@ == c);
                        } else {
                            assert(self.entries[a0].0@ == c);
                        }
                    }
                }
            },
        }
    }
}

} // verus!
