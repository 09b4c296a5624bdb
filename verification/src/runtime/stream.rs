//! The table of stream resources that scripts hold by numeric id.

use vstd::prelude::*;
use std::collections::HashMap;

verus! {

broadcast use vstd::std_specs::hash::group_hash_axioms;

/// One stream resource.
#[derive(Debug)]
pub struct StreamResource {
    /// The resource's id.
    pub rid: u32,
    /// Whether the stream was closed.
    pub closed: bool,
}

/// Stream resources by id; ids are handed out from 1 upwards.
pub struct StreamResourceTable {
    resources: HashMap<u32, StreamResource>,
    next_rid: u32,
}

impl StreamResourceTable {
    /// The resources by id: whether each is closed.
    pub closed spec fn table(&self) -> Map<u32, bool> {
        Map::new(|rid: u32| self.resources@.contains_key(rid), |rid: u32| self.resources@[rid].closed)
    }

    /// The id the next resource gets.
    pub closed spec fn next(&self) -> u32 {
        self.next_rid
    }

    /// Whether every id in use lies below the next one, and at least 1.
    pub closed spec fn wf(&self) -> bool {
        &&& self.next_rid >= 1
        &&& forall|rid: u32| self.resources@.contains_key(rid) ==> 1 <= rid < self.next_rid
        &&& forall|rid: u32| self.resources@.contains_key(rid) ==> #[trigger] self.resources@[rid].rid == rid
    }

    /// An empty table; the first id is 1.
    pub fn new() -> (r: Self)
        ensures
            r.wf(),
            r.table() == Map::<u32, bool>::empty(),
            r.next() == 1,
    {
        let r = StreamResourceTable { resources: HashMap::new(), next_rid: 1 };
        assert(r.table() =~= Map::<u32, bool>::empty());
        r
    }

    /// Adds an open resource under a fresh id and answers the id.
    pub fn add(&mut self) -> (rid: u32)
        requires
            old(self).wf(),
            old(self).next() < u32::MAX,
        ensures
            final(self).wf(),
            rid == old(self).next(),
            rid >= 1,
            !old(self).table().contains_key(rid),
            final(self).table() == old(self).table().insert(rid, false),
            final(self).next() == rid + 1,
    {
        let rid = self.next_rid;
        self.next_rid = rid + 1;
        self.resources.insert(rid, StreamResource { rid, closed: false });
        assert(self.table() =~= old(self).table().insert(rid, false));
        rid
    }

    /// Marks the resource `rid` closed; answers whether it exists.
    pub fn close(&mut self, rid: u32) -> (found: bool)
        requires
            old(self).wf(),
        ensures
            final(self).wf(),
            found == old(self).table().contains_key(rid),
            final(self).table() == if found {
                old(self).table().insert(rid, true)
            } else {
                old(self).table()
            },
            final(self).next() == old(self).next(),
    {
        if self.resources.contains_key(&rid) {
            self.resources.insert(rid, StreamResource { rid, closed: true });
            assert(self.table() =~= old(self).table().insert(rid, true));
            true
        } else {
            false
        }
    }

    /// Whether the resource `rid` exists, closed or not.
    pub fn has(&self, rid: u32) -> (r: bool)
        ensures
            r == self.table().contains_key(rid),
    {
        self.resources.contains_key(&rid)
    }
}

impl Default for StreamResourceTable {
    fn default() -> (r: Self)
        ensures
            r.wf(),
            r.table() == Map::<u32, bool>::empty(),
            r.next() == 1,
    {
        StreamResourceTable::new()
    }
}

} // verus!
