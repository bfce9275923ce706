//! The table of live codec bridges, by handle.

use vstd::prelude::*;
use std::collections::HashMap;

verus! {

broadcast use vstd::std_specs::hash::group_hash_axioms;

/// The bridges in use, each under the handle it was given.
pub struct BridgeManager<T> {
    bridges: HashMap<usize, T>,
}

impl<T> BridgeManager<T> {
    /// An empty table.
    pub fn new() -> (m: Self)
        ensures
            m@ == Map::<usize, T>::empty(),
    {
        BridgeManager { bridges: HashMap::new() }
    }

    /// The bridge under `handle`.
    pub fn get_bridge(&self, handle: usize) -> (r: Option<&T>)
        ensures
            match r {
                Some(b) => self@.contains_key(handle) && self@[handle] == *b,
                None => !self@.contains_key(handle),
            },
    {
        self.bridges.get(&handle)
    }

    /// Puts `bridge` under `handle`, replacing a bridge already there, and
    /// gives the handle back.
    pub fn create_bridge(&mut self, handle: usize, bridge: T) -> (r: usize)
        ensures
            r == handle,
            final(self)@ == old(self)@.insert(handle, bridge),
    {
        self.bridges.insert(handle, bridge);
        handle
    }

    /// Takes the bridge under `handle` out of the table.
    pub fn remove_bridge(&mut self, handle: usize) -> (r: Option<T>)
        ensures
            final(self)@ == old(self)@.remove(handle),
            match r {
                Some(b) => old(self)@.contains_key(handle) && old(self)@[handle] == b,
                None => !old(self)@.contains_key(handle),
            },
    {
        self.bridges.remove(&handle)
    }

    /// Number of bridges in the table.
    pub fn bridge_count(&self) -> (r: usize)
        ensures
            r == self@.len(),
    {
        self.bridges.len()
    }

    /// Empties the table.
    pub fn clear_bridges(&mut self)
        ensures
            final(self)@ == Map::<usize, T>::empty(),
    {
        self.bridges.clear();
    }
}

impl<T> View for BridgeManager<T> {
    type V = Map<usize, T>;

    closed spec fn view(&self) -> Map<usize, T> {
        self.bridges@
    }
}

impl<T> Default for BridgeManager<T> {
    /// An empty table.
    fn default() -> (m: Self)
        ensures
            m@ == Map::<usize, T>::empty(),
    {
        BridgeManager::new()
    }
}

} // verus!
