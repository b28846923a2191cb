//! A keyed table of records, one record per delegate key.

use vstd::prelude::*;
use crate::types::{same_key, DelegateKey};

verus! {

/// A finite map from delegate keys to records. No key is held twice.
pub struct Table<V> {
    keys: Vec<DelegateKey>,
    vals: Vec<V>,
}

impl<V> Table<V> {
    /// The table's invariant: every key has one record, and no key occurs twice.
    pub closed spec fn wf(&self) -> bool {
        &&& self.keys@.len() == self.vals@.len()
        &&& forall|i: int, j: int|
            0 <= i < j < self.keys@.len() ==> (#[trigger] self.keys@[i])@ != (
            #[trigger] self.keys@[j])@
    }

    spec fn holds(&self, k: Seq<u8>, i: int) -> bool {
        0 <= i < self.keys@.len() && self.keys@[i]@ == k
    }

    /// The map that the table stands for.
    pub closed spec fn view(&self) -> Map<Seq<u8>, V> {
        Map::new(
            |k: Seq<u8>| exists|i: int| self.holds(k, i),
            |k: Seq<u8>| self.vals@[choose|i: int| self.holds(k, i)],
        )
    }

    proof fn lemma_slot(&self, i: int)
        requires
            self.wf(),
            0 <= i < self.keys@.len(),
        ensures
            self@.contains_key(self.keys@[i]@),
            self@[self.keys@[i]@] == self.vals@[i],
    {
        let k = self.keys@[i]@;
        assert(self.holds(k, i));
        let j = choose|j: int| self.holds(k, j);
        assert(self.holds(k, j));
        assert(i == j);
    }

    /// The empty table.
    pub fn new() -> (table: Self)
        ensures
            table.wf(),
            table@ == Map::<Seq<u8>, V>::empty(),
    {
        let table = Table { keys: Vec::new(), vals: Vec::new() };
        assert(forall|k: Seq<u8>, i: int| !table.holds(k, i));
        assert(table@ =~= Map::<Seq<u8>, V>::empty());
        table
    }

    fn position(&self, key: &DelegateKey) -> (slot: Option<usize>)
        requires
            self.wf(),
        ensures
            match slot {
                Some(i) => self.holds(key@, i as int),
                None => forall|i: int| !self.holds(key@, i),
            },
    {
        let mut i: usize = 0;
        while i < self.keys.len()
            invariant
                i <= self.keys@.len(),
                forall|j: int| 0 <= j < i ==> !self.holds(key@, j),
            decreases self.keys@.len() - i,
        {
            if same_key(&self.keys[i], key) {
                return Some(i);
            }
            i += 1;
        }
        None
    }

    /// The record held under `key`, if there is one.
    pub fn get(&self, key: &DelegateKey) -> (found: Option<&V>)
        requires
            self.wf(),
        ensures
            match found {
                Some(v) => self@.contains_key(key@) && *v == self@[key@],
                None => !self@.contains_key(key@),
            },
    {
        match self.position(key) {
            Some(i) => {
                proof {
                    self.lemma_slot(i as int);
                }
                Some(&self.vals[i])
            },
            None => None,
        }
    }

    /// Puts `val` under `key`, in place of what was held there.
    pub fn set(&mut self, key: DelegateKey, val: V)
        requires
            old(self).wf(),
        ensures
            final(self).wf(),
            final(self)@ == old(self)@.insert(key@, val),
    {
        let ghost before = *self;
        match self.position(&key) {
            Some(i) => {
                self.vals[i] = val;
                proof {
                    let after = *self;
                    assert(after.wf());
                    assert forall|k: Seq<u8>, j: int| after.holds(k, j) == before.holds(k, j) by {}
                    assert forall|k: Seq<u8>| #[trigger]
                        after@.contains_key(k) == before@.insert(key@, val).contains_key(k) by {
                        if k == key@ {
                            assert(after.holds(k, i as int));
                        }
                    }
                    assert forall|k: Seq<u8>| #[trigger] after@.contains_key(k) implies after@[k]
                        == before@.insert(key@, val)[k] by {
                        let j = choose|j: int| after.holds(k, j);
                        assert(after.holds(k, j));
                        after.lemma_slot(j);
                        before.lemma_slot(j);
                        if k == key@ {
                            after.lemma_slot(i as int);
                        }
                    }
                    assert(after@ =~= before@.insert(key@, val));
                }
            },
            None => {
                self.keys.push(key);
                self.vals.push(val);
                proof {
                    let after = *self;
                    let n = before.keys@.len() as int;
                    assert(after.keys@[n]@ == key@);
                    assert forall|i: int, j: int| 0 <= i < j < after.keys@.len() implies (
                    #[trigger] after.keys@[i])@ != (#[trigger] after.keys@[j])@ by {
                        if j == n {
                            assert(!before.holds(key@, i));
                        }
                    }
                    assert(after.wf());
                    assert forall|k: Seq<u8>| #[trigger]
                        after@.contains_key(k) == before@.insert(key@, val).contains_key(k) by {
                        if k == key@ {
                            assert(after.holds(k, n));
                        } else if before@.contains_key(k) {
                            let j = choose|j: int| before.holds(k, j);
                            assert(after.holds(k, j));
                        } else if after@.contains_key(k) {
                            let j = choose|j: int| after.holds(k, j);
                            assert(before.holds(k, j));
                        }
                    }
                    assert forall|k: Seq<u8>| #[trigger] after@.contains_key(k) implies after@[k]
                        == before@.insert(key@, val)[k] by {
                        let j = choose|j: int| after.holds(k, j);
                        assert(after.holds(k, j));
                        after.lemma_slot(j);
                        if j < n {
                            before.lemma_slot(j);
                        }
                    }
                    assert(after@ =~= before@.insert(key@, val));
                }
            },
        }
    }

    /// Drops the record held under `key`, if there is one.
    pub fn remove(&mut self, key: &DelegateKey)
        requires
            old(self).wf(),
        ensures
            final(self).wf(),
            final(self)@ == old(self)@.remove(key@),
    {
        let ghost before = *self;
        match self.position(key) {
            Some(i) => {
                self.keys.remove(i);
                self.vals.remove(i);
                proof {
                    let after = *self;
                    let at = i as int;
                    assert forall|j: int| 0 <= j < after.keys@.len() implies #[trigger]
                        after.keys@[j] == before.keys@[if j < at { j } else { j + 1 }]
                        && after.vals@[j] == before.vals@[if j < at { j } else { j + 1 }] by {}
                    assert forall|a: int, b: int| 0 <= a < b < after.keys@.len() implies (
                    #[trigger] after.keys@[a])@ != (#[trigger] after.keys@[b])@ by {
                        let a0 = if a < at { a } else { a + 1 };
                        let b0 = if b < at { b } else { b + 1 };
                        assert(before.keys@[a0]@ != before.keys@[b0]@);
                    }
                    assert(after.wf());
                    assert forall|k: Seq<u8>| #[trigger]
                        after@.contains_key(k) == before@.remove(key@).contains_key(k) by {
                        if after@.contains_key(k) {
                            let j = choose|j: int| after.holds(k, j);
                            assert(after.holds(k, j));
                            let j0 = if j < at { j } else { j + 1 };
                            assert(before.holds(k, j0));
                            assert(before.keys@[j0]@ != before.keys@[at]@);
                        }
                        if before@.remove(key@).contains_key(k) {
                            let j0 = choose|j: int| before.holds(k, j);
                            assert(before.holds(k, j0));
                            assert(j0 != at);
                            let j = if j0 < at { j0 } else { j0 - 1 };
                            assert(after.holds(k, j));
                        }
                    }
                    assert forall|k: Seq<u8>| #[trigger] after@.contains_key(k) implies after@[k]
                        == before@.remove(key@)[k] by {
                        let j = choose|j: int| after.holds(k, j);
                        assert(after.holds(k, j));
                        let j0 = if j < at { j } else { j + 1 };
                        after.lemma_slot(j);
                        before.lemma_slot(j0);
                    }
                    assert(after@ =~= before@.remove(key@));
                }
            },
            None => {
                assert(!self@.contains_key(key@));
                assert(self@ =~= self@.remove(key@));
            },
        }
    }
}

} // verus!
