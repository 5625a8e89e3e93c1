//! An address-keyed table: the storage behind the ledger's accounts.

use crate::address::Address;
use vstd::prelude::*;

verus! {

/// A finite map from addresses to values. A slot is kept once its address has
/// been seen; an emptied slot holds nothing until the address is filled again.
pub struct Table<V> {
    keys: Vec<Address>,
    slots: Vec<Option<V>>,
    entries: Ghost<Map<Address, V>>,
}

impl<V: Copy> View for Table<V> {
    type V = Map<Address, V>;

    closed spec fn view(&self) -> Map<Address, V> {
        self.entries@
    }
}

impl<V: Copy> Table<V> {
    /// Every address has at most one slot, and the slots hold exactly the
    /// entries of the view.
    pub closed spec fn wf(&self) -> bool {
        &&& self.keys@.len() == self.slots@.len()
        &&& forall|i: int, j: int|
            0 <= i < j < self.keys@.len() ==> self.keys@[i] != self.keys@[j]
        &&& forall|i: int|
            0 <= i < self.keys@.len() ==> match #[trigger] self.slots@[i] {
                Some(v) => self.entries@.contains_key(self.keys@[i]) && self.entries@[self.keys@[i]]
                    == v,
                None => !self.entries@.contains_key(self.keys@[i]),
            }
        &&& forall|k: Address|
            self.entries@.contains_key(k) ==> exists|i: int|
                0 <= i < self.keys@.len() && #[trigger] self.keys@[i] == k
    }

    /// The empty table.
    pub fn new() -> (t: Table<V>)
        ensures
            t.wf(),
            t@ == Map::<Address, V>::empty(),
    {
        Table { keys: Vec::new(), slots: Vec::new(), entries: Ghost(Map::empty()) }
    }

    fn find(&self, key: &Address) -> (r: Option<usize>)
        requires
            self.wf(),
        ensures
            r matches Some(i) ==> i < self.keys@.len() && self.keys@[i as int] == *key,
            r is None ==> forall|i: int| 0 <= i < self.keys@.len() ==> self.keys@[i] != *key,
    {
        let mut i: usize = 0;
        while i < self.keys.len()
            invariant
                i <= self.keys@.len(),
                forall|j: int| 0 <= j < i ==> self.keys@[j] != *key,
            decreases self.keys@.len() - i,
        {
            if self.keys[i] == *key {
                return Some(i);
            }
            i = i + 1;
        }
        None
    }

    /// The value stored at `key`, if there is one.
    pub fn get(&self, key: &Address) -> (r: Option<V>)
        requires
            self.wf(),
        ensures
            r == (if self@.contains_key(*key) {
                Some(self@[*key])
            } else {
                None
            }),
    {
        match self.find(key) {
            Some(i) => self.slots[i],
            None => None,
        }
    }

    /// Stores `value` at `key`, in place of what was there.
    pub fn put(&mut self, key: Address, value: V)
        requires
            old(self).wf(),
        ensures
            final(self).wf(),
            final(self)@ == old(self)@.insert(key, value),
    {
        let ghost at: int;
        match self.find(&key) {
            Some(i) => {
                self.slots.set(i, Some(value));
                proof {
                    at = i as int;
                }
            },
            None => {
                self.keys.push(key);
                self.slots.push(Some(value));
                proof {
                    at = self.keys@.len() - 1;
                }
            },
        }
        proof {
            self.entries@ = self.entries@.insert(key, value);
            assert(self.keys@[at] == key);
            assert forall|k: Address| self.entries@.contains_key(k) implies exists|i: int|
                0 <= i < self.keys@.len() && #[trigger] self.keys@[i] == k by {
                if k != key {
                    let i = choose|i: int|
                        0 <= i < old(self).keys@.len() && #[trigger] old(self).keys@[i] == k;
                    assert(self.keys@[i] == k);
                } else {
                    assert(self.keys@[at] == k);
                }
            }
        }
    }

    /// Empties the slot of `key`.
    pub fn remove(&mut self, key: &Address)
        requires
            old(self).wf(),
        ensures
            final(self).wf(),
            final(self)@ == old(self)@.remove(*key),
    {
        match self.find(key) {
            Some(i) => {
                self.slots.set(i, None);
            },
            None => {},
        }
        proof {
            self.entries@ = self.entries@.remove(*key);
            assert forall|k: Address| self.entries@.contains_key(k) implies exists|i: int|
                0 <= i < self.keys@.len() && #[trigger] self.keys@[i] == k by {
                let i = choose|i: int|
                    0 <= i < old(self).keys@.len() && #[trigger] old(self).keys@[i] == k;
                assert(self.keys@[i] == k);
            }
        }
    }
}

} // verus!
