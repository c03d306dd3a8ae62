//! Tables keyed by integers.

use std::collections::HashMap;
use vstd::prelude::*;

verus! {

/// A map from integer keys to values.
pub struct Table<T> {
    entries: HashMap<u64, T>,
}

impl<T> View for Table<T> {
    type V = Map<u64, T>;

    closed spec fn view(&self) -> Map<u64, T> {
        self.entries@
    }
}

/// What a map holds at a key.
pub open spec fn table_get_spec<'a, T>(m: Map<u64, T>, k: u64) -> Option<&'a T> {
    if m.dom().contains(k) { Some(&m[k]) } else { None }
}

impl<T> Table<T> {
    /// The table with no entries.
    pub fn new() -> (r: Table<T>)
        ensures
            r@ == Map::<u64, T>::empty(),
    {
        broadcast use vstd::std_specs::hash::group_hash_axioms;
        Table { entries: HashMap::new() }
    }

    /// The value filed under `k`, if there is one.
    pub fn get(&self, k: u64) -> (r: Option<&T>)
        ensures
            r == table_get_spec(self@, k),
    {
        broadcast use vstd::std_specs::hash::group_hash_axioms;
        self.entries.get(&k)
    }

    /// File `v` under `k`, replacing what was there.
    pub fn set(&mut self, k: u64, v: T)
        ensures
            final(self)@ == old(self)@.insert(k, v),
    {
        broadcast use vstd::std_specs::hash::group_hash_axioms;
        self.entries.insert(k, v);
    }

}

} // verus!
