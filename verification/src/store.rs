//! The keyed record store: one record per subscription identifier.
//!
//! The store holds its records in memory. A caller that keeps them elsewhere
//! loads the record a call needs, and writes back the one that the call left.

use crate::subscription::SubscriptionData;
use std::collections::HashMap;
use vstd::prelude::*;

verus! {

/// Whether every record among `records` is well formed.
pub open spec fn all_well_formed(records: Map<u64, SubscriptionData>) -> bool {
    forall|id: u64| #[trigger] records.contains_key(id) ==> records[id].well_formed()
}

/// Subscription records, addressed by subscription identifier.
pub struct SubscriptionStore {
    records: HashMap<u64, SubscriptionData>,
}

impl View for SubscriptionStore {
    type V = Map<u64, SubscriptionData>;

    closed spec fn view(&self) -> Map<u64, SubscriptionData> {
        self.records@
    }
}

impl SubscriptionStore {
    /// Whether every stored record is well formed.
    pub open spec fn consistent(self) -> bool {
        all_well_formed(self@)
    }

    /// An empty store.
    pub fn new() -> (store: Self)
        ensures
            store@ == Map::<u64, SubscriptionData>::empty(),
            store.consistent(),
    {
        SubscriptionStore { records: HashMap::new() }
    }

    /// Whether a record is stored under `id`.
    pub fn has(&self, id: u64) -> (found: bool)
        ensures
            found == self@.contains_key(id),
    {
        broadcast use vstd::std_specs::hash::group_hash_axioms;

        self.records.contains_key(&id)
    }

    /// A copy of the record stored under `id`, if there is one.
    pub fn get(&self, id: u64) -> (found: Option<SubscriptionData>)
        ensures
            found == if self@.contains_key(id) {
                Some(self@[id])
            } else {
                None
            },
    {
        broadcast use vstd::std_specs::hash::group_hash_axioms;

        match self.records.get(&id) {
            Some(data) => Some(data.clone()),
            None => None,
        }
    }

    /// Stores `data` under `id`, in place of any record already there.
    pub fn set(&mut self, id: u64, data: SubscriptionData)
        ensures
            final(self)@ == old(self)@.insert(id, data),
            old(self).consistent() && data.well_formed() ==> final(self).consistent(),
    {
        broadcast use vstd::std_specs::hash::group_hash_axioms;

        self.records.insert(id, data);
        proof {
            if old(self).consistent() && data.well_formed() {
                assert forall|other: u64| #[trigger]
                    self@.contains_key(other) implies self@[other].well_formed() by {
                    if other != id {
                        assert(old(self)@.contains_key(other));
                    }
                }
            }
        }
    }
}

} // verus!
