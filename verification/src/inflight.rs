//! The in-flight call table.
//!
//! A bounded key/value store correlating a syscall's entry data with its
//! later exit, keyed by the kernel's raw combined pid/thread-group
//! identifier. Insertion past capacity fails (the entry handler drops
//! that invocation); entries are removed exactly once, by the matching
//! exit, or left behind if the exit is never observed.

use vstd::prelude::*;
use std::collections::HashMap;
use crate::events::SockaddrEvent;

verus! {

/// Bounded map from raw pid/tgid keys to partially-filled entry events.
pub struct InFlightTable {
    entries: HashMap<u64, SockaddrEvent>,
    capacity: usize,
}

impl InFlightTable {
    /// The correlation entries currently stored.
    pub closed spec fn view(&self) -> Map<u64, SockaddrEvent> {
        self.entries@
    }

    /// The fixed capacity the table was created with.
    pub closed spec fn spec_capacity(&self) -> nat {
        self.capacity as nat
    }

    /// The table never holds more entries than its capacity.
    pub closed spec fn wf(&self) -> bool {
        &&& self.entries@.dom().finite()
        &&& self.entries@.len() <= self.capacity
    }

    /// Creates an empty table with the given capacity.
    pub fn new(capacity: usize) -> (r: Self)
        ensures
            r.wf(),
            r.view() == Map::<u64, SockaddrEvent>::empty(),
            r.spec_capacity() == capacity,
    {
        InFlightTable { entries: HashMap::new(), capacity }
    }

    /// Number of entries currently in flight.
    pub fn len(&self) -> (r: usize)
        ensures
            r == self.view().len(),
    {
        self.entries.len()
    }

    /// Stores an entry under `key`, overwriting an existing entry with
    /// the same key. Fails, changing nothing, when the key is new and
    /// the table is full.
    pub fn insert(&mut self, key: u64, event: SockaddrEvent) -> (ok: bool)
        requires
            old(self).wf(),
        ensures
            final (self).wf(),
            final (self).spec_capacity() == old(self).spec_capacity(),
            ok == (old(self).view().contains_key(key) || old(self).view().len() < old(
                self,
            ).spec_capacity()),
            ok ==> final (self).view() == old(self).view().insert(key, event),
            !ok ==> final (self).view() == old(self).view(),
    {
        if self.entries.contains_key(&key) {
            self.entries.insert(key, event);
            true
        } else if self.entries.len() < self.capacity {
            self.entries.insert(key, event);
            true
        } else {
            false
        }
    }

    /// Looks up the entry stored under `key`.
    pub fn get(&self, key: u64) -> (r: Option<SockaddrEvent>)
        ensures
            r matches Some(e) ==> self.view().contains_key(key) && self.view()[key] == e,
            r is None ==> !self.view().contains_key(key),
    {
        match self.entries.get(&key) {
            Some(e) => Some(*e),
            None => None,
        }
    }

    /// Removes and returns the entry stored under `key`, if any.
    pub fn remove(&mut self, key: u64) -> (r: Option<SockaddrEvent>)
        requires
            old(self).wf(),
        ensures
            final (self).wf(),
            final (self).spec_capacity() == old(self).spec_capacity(),
            final (self).view() == old(self).view().remove(key),
            r matches Some(e) ==> old(self).view().contains_key(key) && old(self).view()[key] == e,
            r is None ==> !old(self).view().contains_key(key),
    {
        self.entries.remove(&key)
    }
}

} // verus!
