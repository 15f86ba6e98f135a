use vstd::prelude::*;

use vstd::hash_map::HashMapWithView;
use vstd::map::*;

use crate::profile::{Entry, EntryView};

verus! {

/// The record store: an exclusively-owned mapping from identity to entry.
///
/// A pure data container with no business rules; its view is the map of
/// entry values currently stored, keyed by identity.
pub struct RecordStore {
    map: HashMapWithView<u64, Entry>,
}

impl View for RecordStore {
    type V = Map<u64, EntryView>;

    closed spec fn view(&self) -> Map<u64, EntryView> {
        self.map@.map_values(|e: Entry| e@)
    }
}

impl RecordStore {
    /// Creates an empty store.
    pub fn new() -> (r: RecordStore)
        ensures
            r@ == Map::<u64, EntryView>::empty(),
    {
        let r = RecordStore { map: HashMapWithView::new() };
        proof {
            let lhs = r@;
            let rhs = Map::<u64, EntryView>::empty();
            assert_maps_equal!(lhs, rhs);
        }
        r
    }

    /// Looks an entry up; no side effects.
    pub fn get(&self, id: u64) -> (r: Option<&Entry>)
        ensures
            match r {
                Some(e) => self@.contains_key(id) && e@ == self@[id],
                None => !self@.contains_key(id),
            },
    {
        self.map.get(&id)
    }

    /// Inserts or overwrites the identity's entry wholesale.
    pub fn put(&mut self, id: u64, entry: Entry)
        ensures
            final(self)@ == old(self)@.insert(id, entry@),
    {
        let ghost pre = self.map@;
        let ghost v = entry@;
        self.map.insert(id, entry);
        proof {
            let lhs = self.map@.map_values(|e: Entry| e@);
            let rhs = pre.map_values(|e: Entry| e@).insert(id, v);
            assert_maps_equal!(lhs, rhs);
        }
    }

    /// Deletes the identity's entry and returns it, or reports absence.
    pub fn remove(&mut self, id: u64) -> (r: Option<Entry>)
        ensures
            final(self)@ == old(self)@.remove(id),
            match r {
                Some(e) => old(self)@.contains_key(id) && e@ == old(self)@[id],
                None => !old(self)@.contains_key(id),
            },
    {
        let ghost pre = self.map@;
        let r = self.map.remove(&id);
        proof {
            let lhs = self.map@.map_values(|e: Entry| e@);
            let rhs = pre.map_values(|e: Entry| e@).remove(id);
            assert_maps_equal!(lhs, rhs);
        }
        r
    }
}

} // verus!
