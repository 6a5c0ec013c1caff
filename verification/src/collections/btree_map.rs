//! A map kept in the standard ordered map.
use std::collections::BTreeMap;
use vstd::prelude::*;
use vstd::laws_cmp::obeys_cmp;

use crate::pool::error::AllocError;

verus! {

broadcast use vstd::std_specs::btree::group_btree_axioms;

/// A map from keys to values kept in the standard ordered map (so its entries live
/// in the host's allocator, not in a pool).
pub struct PoolBTreeMap<K, V> {
    map: BTreeMap<K, V>,
}

impl<K: Ord, V> PoolBTreeMap<K, V> {
    /// The entries of the map.
    pub closed spec fn view(&self) -> Map<K, V> {
        self.map@
    }

    /// An empty map.
    pub fn new() -> (r: PoolBTreeMap<K, V>)
        ensures
            r.view() == Map::<K, V>::empty(),
    {
        PoolBTreeMap { map: BTreeMap::new() }
    }

    /// Map `key` to `value`; returns the previous value of `key`, if any. Never an error.
    pub fn try_insert(&mut self, key: K, value: V) -> (r: Result<Option<V>, AllocError>)
        ensures
            r is Ok,
            obeys_cmp::<K>() ==> {
                &&& final(self).view() == old(self).view().insert(key, value)
                &&& r == Ok::<Option<V>, AllocError>(
                    if old(self).view().contains_key(key) {
                        Some(old(self).view()[key])
                    } else {
                        None
                    },
                )
            },
    {
        Ok(self.map.insert(key, value))
    }

    /// The value of `key`, if the map holds `key`.
    pub fn get(&self, key: &K) -> (r: Option<&V>)
        ensures
            obeys_cmp::<K>() ==> match r {
                Some(v) => self.view().contains_key(*key) && *v == self.view()[*key],
                None => !self.view().contains_key(*key),
            },
    {
        self.map.get(key)
    }

    /// Number of entries.
    pub fn len(&self) -> (r: usize)
        ensures
            obeys_cmp::<K>() ==> r == self.view().len(),
    {
        self.map.len()
    }
}

impl<K: Ord, V> Default for PoolBTreeMap<K, V> {
    /// The same as `new`.
    fn default() -> (r: PoolBTreeMap<K, V>)
        ensures
            r.view() == Map::<K, V>::empty(),
    {
        PoolBTreeMap::new()
    }
}

} // verus!
