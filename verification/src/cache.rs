//! The item cache: identifier to last-known record, or to an explicit
//! "known absent" marker.
//!
//! A key mapped to `None` means the catalog was queried and confirmed it has
//! no record for that identifier — distinct from a key that is not present,
//! which means the identifier was never queried. Entries are only ever added
//! or overwritten by a newer successful query; a failed query writes nothing.

use crate::item::{ItemRecord, ItemRecordView};
use std::collections::HashMap;
use vstd::prelude::*;

verus! {

broadcast use vstd::std_specs::hash::group_hash_axioms;

/// The shared item cache. Viewed as a map from identifier to
/// `Option<ItemRecordView>`, where `None` is the "known absent" marker.
pub struct Cache {
    map: HashMap<u64, Option<ItemRecord>>,
}

impl View for Cache {
    type V = Map<u64, Option<ItemRecordView>>;

    closed spec fn view(&self) -> Map<u64, Option<ItemRecordView>> {
        self.map@.map_values(|entry: Option<ItemRecord>| entry.deep_view())
    }
}

impl Cache {
    /// An empty cache: no identifier has been queried yet.
    pub fn new() -> (c: Cache)
        ensures
            c@ == Map::<u64, Option<ItemRecordView>>::empty(),
    {
        let c = Cache { map: HashMap::new() };
        proof {
            assert(c@ =~= Map::<u64, Option<ItemRecordView>>::empty());
        }
        c
    }

    /// Whether `id` has a completed query on record (present or absent).
    pub fn contains(&self, id: u64) -> (b: bool)
        ensures
            b == self@.contains_key(id),
    {
        self.map.contains_key(&id)
    }

    /// The cached entry for `id`: `None` if never queried, `Some(None)` if
    /// known absent, `Some(Some(record))` if a record is on file.
    pub fn get(&self, id: u64) -> (r: Option<&Option<ItemRecord>>)
        ensures
            match r {
                Some(entry) => self@.contains_key(id) && self@[id] == entry.deep_view(),
                None => !self@.contains_key(id),
            },
    {
        self.map.get(&id)
    }

    /// An owned copy of the cached entry for `id`, for callers that need
    /// "do we already know about this item" without an in-flight query.
    pub fn cached(&self, id: u64) -> (r: Option<Option<ItemRecord>>)
        ensures
            match r {
                Some(entry) => self@.contains_key(id) && self@[id] == entry.deep_view(),
                None => !self@.contains_key(id),
            },
    {
        match self.map.get(&id) {
            None => None,
            Some(None) => Some(None),
            Some(Some(record)) => Some(Some(record.duplicate())),
        }
    }

    /// Records a successful resolution of `record.id`.
    pub fn insert_present(&mut self, record: ItemRecord)
        ensures
            final(self)@ == old(self)@.insert(record.id, Some(record@)),
    {
        let id: u64 = record.id;
        let ghost v = record@;
        self.map.insert(id, Some(record));
        proof {
            assert(self@ =~= old(self)@.insert(id, Some(v)));
        }
    }

    /// Records that the catalog confirmed it has no entry for `id`.
    pub fn insert_absent(&mut self, id: u64)
        ensures
            final(self)@ == old(self)@.insert(id, None),
    {
        self.map.insert(id, None);
        proof {
            assert(self@ =~= old(self)@.insert(id, None::<ItemRecordView>));
        }
    }
}

} // verus!
