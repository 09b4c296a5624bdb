//! The concurrent map that holds the in-memory backend's files, and the
//! contracts of the few of its methods that the backend calls.

use vstd::prelude::*;
use dashmap::DashMap;
use crate::vfs::types::VfsFile;

verus! {

#[verifier::external_type_specification]
#[verifier::external_body]
#[verifier::reject_recursive_types(K)]
#[verifier::reject_recursive_types(V)]
#[verifier::reject_recursive_types(S)]
pub struct ExDashMap<K, V, S>(DashMap<K, V, S>);

/// The files that a map holds, by path.
pub uninterp spec fn stored(m: DashMap<String, VfsFile>) -> Map<Seq<char>, VfsFile>;

/// The map with no entries.
pub open spec fn no_files() -> Map<Seq<char>, VfsFile> {
    Map::empty()
}

/// Whether `entries` lists each entry of `m` exactly once, each key as a
/// string and each file as a copy of the stored one.
pub open spec fn lists_entries(entries: Seq<(String, VfsFile)>, m: Map<Seq<char>, VfsFile>) -> bool {
    &&& forall|i: int|
        0 <= i < entries.len() ==> m.contains_key(#[trigger] entries[i].0@) && entries[i].1@
            == m[entries[i].0@]@
    &&& forall|k: Seq<char>|
        m.contains_key(k) ==> exists|i: int| 0 <= i < entries.len() && #[trigger] entries[i].0@ == k
    &&& forall|i: int, j: int|
        0 <= i < j < entries.len() ==> #[trigger] entries[i].0@ != #[trigger] entries[j].0@
}

/// Whether `keys` lists each key of `m` exactly once.
pub open spec fn lists_keys(keys: Seq<String>, m: Map<Seq<char>, VfsFile>) -> bool {
    &&& forall|i: int| 0 <= i < keys.len() ==> m.contains_key(#[trigger] keys[i]@)
    &&& forall|k: Seq<char>|
        m.contains_key(k) ==> exists|i: int| 0 <= i < keys.len() && #[trigger] keys[i]@ == k
    &&& forall|i: int, j: int|
        0 <= i < j < keys.len() ==> #[trigger] keys[i]@ != #[trigger] keys[j]@
}

/// `DashMap::new`: a map with no entries.
#[verifier::external_body]
pub(crate) fn store_new() -> (r: DashMap<String, VfsFile>)
    ensures
        stored(r) == no_files(),
{
    DashMap::new()
}

/// `DashMap::get` followed by a copy of the value: the file stored under
/// `key`, if any.
#[verifier::external_body]
pub(crate) fn store_get(m: &DashMap<String, VfsFile>, key: &str) -> (r: Option<VfsFile>)
    ensures
        r is Some <==> stored(*m).contains_key(key@),
        r matches Some(f) ==> f@ == stored(*m)[key@]@,
{
    m.get(key).map(|e| e.value().clone())
}

/// `DashMap::contains_key`: whether a file is stored under `key`.
#[verifier::external_body]
pub(crate) fn store_contains(m: &DashMap<String, VfsFile>, key: &str) -> (r: bool)
    ensures
        r == stored(*m).contains_key(key@),
{
    m.contains_key(key)
}

/// `DashMap::insert`: stores `f` under `key`, replacing any earlier file.
#[verifier::external_body]
pub(crate) fn store_insert(m: &mut DashMap<String, VfsFile>, key: String, f: VfsFile)
    ensures
        stored(*final(m)) == stored(*old(m)).insert(key@, f),
{
    m.insert(key, f);
}

/// `DashMap::remove`: removes and returns the file stored under `key`.
#[verifier::external_body]
pub(crate) fn store_remove(m: &mut DashMap<String, VfsFile>, key: &str) -> (r: Option<VfsFile>)
    ensures
        stored(*final(m)) == stored(*old(m)).remove(key@),
        r is Some <==> stored(*old(m)).contains_key(key@),
        r matches Some(f) ==> f == stored(*old(m))[key@],
{
    m.remove(key).map(|(_, f)| f)
}

/// `DashMap::len`: the number of stored files.
#[verifier::external_body]
pub(crate) fn store_len(m: &DashMap<String, VfsFile>) -> (r: usize)
    ensures
        r == stored(*m).len(),
{
    m.len()
}

/// `DashMap::clear`: removes every file.
#[verifier::external_body]
pub(crate) fn store_clear(m: &mut DashMap<String, VfsFile>)
    ensures
        stored(*final(m)) == no_files(),
{
    m.clear();
}

/// `DashMap::iter`, copying each entry: every (path, file) pair, in an
/// order that the map does not fix.
#[verifier::external_body]
pub(crate) fn store_entries(m: &DashMap<String, VfsFile>) -> (r: Vec<(String, VfsFile)>)
    ensures
        lists_entries(r@, stored(*m)),
{
    m.iter().map(|e| (e.key().clone(), e.value().clone())).collect()
}

/// `DashMap::iter`, copying each key: every stored path, in an order that
/// the map does not fix.
#[verifier::external_body]
pub(crate) fn store_keys(m: &DashMap<String, VfsFile>) -> (r: Vec<String>)
    ensures
        lists_keys(r@, stored(*m)),
{
    m.iter().map(|e| e.key().clone()).collect()
}

} // verus!
