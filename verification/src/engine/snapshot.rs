//! The startup snapshot of the engine, loaded once per process.

use vstd::prelude::*;
use vstd::string::StringExecFns;

verus! {

/// A pre-built snapshot blob.
#[derive(Debug)]
pub struct SnapshotCache {
    data: Vec<u8>,
}

impl SnapshotCache {
    /// The snapshot bytes.
    pub closed spec fn bytes(&self) -> Seq<u8> {
        self.data@
    }

    /// A cache holding `data`.
    pub fn from_data(data: Vec<u8>) -> (r: SnapshotCache)
        ensures
            r.bytes() == data@,
    {
        SnapshotCache { data }
    }

    /// A cache holding the bytes of a snapshot file; an empty file is
    /// refused.
    pub fn from_file_bytes(data: Vec<u8>) -> (r: Result<SnapshotCache, String>)
        ensures
            r is Ok <==> data@.len() > 0,
            r matches Ok(c) ==> c.bytes() == data@,
            r matches Err(e) ==> e@ == "Snapshot file is empty"@,
    {
        if data.len() == 0 {
            return Err(String::from_str("Snapshot file is empty"));
        }
        Ok(SnapshotCache { data })
    }

    /// The snapshot bytes.
    pub fn data(&self) -> (r: &[u8])
        ensures
            r@ == self.bytes(),
    {
        self.data.as_slice()
    }

    /// Whether the snapshot holds any bytes.
    pub fn is_valid(&self) -> (r: bool)
        ensures
            r == (self.bytes().len() > 0),
    {
        self.data.len() > 0
    }
}

/// The process-wide snapshot slot, set at most once.
pub struct GlobalSnapshot {
    slot: Option<SnapshotCache>,
}

impl GlobalSnapshot {
    /// The stored snapshot's bytes, if one was stored.
    pub closed spec fn stored(&self) -> Option<Seq<u8>> {
        match self.slot {
            Some(c) => Some(c.bytes()),
            None => None,
        }
    }

    /// An empty slot.
    pub fn new() -> (r: GlobalSnapshot)
        ensures
            r.stored() is None,
    {
        GlobalSnapshot { slot: None }
    }
}

/// Stores the snapshot `data`; refused, changing nothing, when one is
/// stored already.
pub fn init_global_snapshot(global: &mut GlobalSnapshot, data: Vec<u8>) -> (r: Result<(), String>)
    ensures
        r is Ok <==> old(global).stored() is None,
        r matches Err(e) ==> e@ == "Global snapshot already initialized"@,
        final(global).stored() == if r is Ok {
            Some(data@)
        } else {
            old(global).stored()
        },
{
    if global.slot.is_some() {
        return Err(String::from_str("Global snapshot already initialized"));
    }
    global.slot = Some(SnapshotCache::from_data(data));
    Ok(())
}

/// Stores the snapshot read from a file; refused when the file is empty or
/// a snapshot is stored already.
pub fn init_global_snapshot_from_file(global: &mut GlobalSnapshot, file_bytes: Vec<u8>) -> (r: Result<(), String>)
    ensures
        r is Ok <==> (file_bytes@.len() > 0 && old(global).stored() is None),
        file_bytes@.len() == 0 ==> (r matches Err(e) && e@ == "Snapshot file is empty"@),
        file_bytes@.len() > 0 && old(global).stored() is Some ==> (r matches Err(e) && e@
            == "Global snapshot already initialized"@),
        final(global).stored() == if r is Ok {
            Some(file_bytes@)
        } else {
            old(global).stored()
        },
{
    let snapshot = SnapshotCache::from_file_bytes(file_bytes)?;
    if global.slot.is_some() {
        return Err(String::from_str("Global snapshot already initialized"));
    }
    global.slot = Some(snapshot);
    Ok(())
}

/// The stored snapshot, if any.
pub fn global_snapshot(global: &GlobalSnapshot) -> (r: Option<&SnapshotCache>)
    ensures
        match r {
            Some(c) => global.stored() == Some(c.bytes()),
            None => global.stored() is None,
        },
{
    match &global.slot {
        Some(c) => Some(c),
        None => None,
    }
}

/// Whether a snapshot is stored.
pub fn is_snapshot_initialized(global: &GlobalSnapshot) -> (r: bool)
    ensures
        r == (global.stored() is Some),
{
    global.slot.is_some()
}

/// Whether a snapshot with some bytes is stored.
pub fn is_snapshot_valid(global: &GlobalSnapshot) -> (r: bool)
    ensures
        r == (global.stored() matches Some(b) && b.len() > 0),
{
    match &global.slot {
        Some(c) => c.is_valid(),
        None => false,
    }
}

} // verus!
