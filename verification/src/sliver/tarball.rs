//! The tar layer of the sliver format, through the `tar` crate.

use vstd::prelude::*;
use crate::vfs::types::path_canonical;

verus! {

/// A `tar::Builder` writing into a `Vec<u8>`.
#[verifier::external_body]
pub struct TarWriter {
    builder: tar::Builder<Vec<u8>>,
}

/// The members written so far into a builder, in order: path and bytes.
pub uninterp spec fn tar_members(b: TarWriter) -> Seq<(Seq<char>, Seq<u8>)>;

/// The mode and modification time (seconds) handed to the header of each
/// member written so far into a builder, in order.
pub uninterp spec fn tar_header_fields(b: TarWriter) -> Seq<(u32, u64)>;

/// What reading an archive yields: the members read, in order, before the
/// first error, and whether an error stopped the reading.
pub uninterp spec fn tar_read(data: Seq<u8>) -> (Seq<(Seq<char>, Seq<u8>)>, bool);

/// Whether `p` has the form of a member name that `Header::set_path` stores
/// as it is: a normalized relative path, possibly with one trailing `/`.
pub open spec fn tar_name_form(p: Seq<char>) -> bool {
    ||| (p.len() > 0 && path_canonical(p))
    ||| (p.len() > 1 && p.last() == '/' && path_canonical(p.drop_last()))
}

/// Whether `p` is a member name that is stored as it is and fits the
/// 100-byte name field of a GNU header.
pub open spec fn tar_name_ok(p: Seq<char>) -> bool {
    tar_name_form(p) && vstd::utf8::encode_utf8(p).len() <= 100
}

/// Whether every member of a list has a name that is stored as it is.
pub open spec fn all_names_ok(ms: Seq<(Seq<char>, Seq<u8>)>) -> bool {
    forall|i: int| 0 <= i < ms.len() ==> tar_name_ok(#[trigger] ms[i].0)
}

/// A new builder writing into an empty `Vec` (`tar::Builder::new`).
#[verifier::external_body]
pub(crate) fn tar_builder_new() -> (b: TarWriter)
    ensures
        tar_members(b) == Seq::<(Seq<char>, Seq<u8>)>::empty(),
        tar_header_fields(b).len() == 0,
{
    TarWriter { builder: tar::Builder::new(Vec::new()) }
}

/// Appends a regular member: a GNU header (`Header::new_gnu`) gets the path
/// (`set_path`), size, `mode` (`set_mode`) and `mtime` (`set_mtime`), then
/// its checksum, and `Builder::append` writes it with `data`.
///
/// `set_path` refuses absolute paths, `..` components, NUL bytes, empty paths
/// and names over 100 bytes, and drops `.` components and repeated `/`; the
/// contract speaks of names it stores as they are. Writing into a `Vec`
/// cannot fail, so an error leaves the builder as it was.
#[verifier::external_body]
pub(crate) fn tar_append(b: &mut TarWriter, path: &str, data: &[u8], mode: u32, mtime: u64) -> (r: Result<(), String>)
    ensures
        tar_name_form(path@) ==> (r is Ok <==> vstd::utf8::encode_utf8(path@).len() <= 100),
        r is Ok && tar_name_ok(path@) ==> tar_members(*final(b)) == tar_members(*old(b)).push(
            (path@, data@),
        ),
        r is Ok ==> tar_header_fields(*final(b)) == tar_header_fields(*old(b)).push((mode, mtime)),
        r is Err ==> tar_members(*final(b)) == tar_members(*old(b)),
        r is Err ==> tar_header_fields(*final(b)) == tar_header_fields(*old(b)),
{
    let mut header = tar::Header::new_gnu();
    header.set_path(path).map_err(|e| e.to_string())?;
    header.set_size(data.len() as u64);
    header.set_mode(mode);
    header.set_mtime(mtime);
    header.set_cksum();
    b.builder.append(&header, data).map_err(|e| e.to_string())
}

/// Finishes the archive and hands back its bytes (`Builder::into_inner`,
/// which writes the two closing zero blocks).
///
/// Reading those bytes back yields the members as they were appended, with
/// no error, where every member name is stored as it is.
#[verifier::external_body]
pub(crate) fn tar_into_bytes(b: TarWriter) -> (r: Result<Vec<u8>, String>)
    ensures
        r is Ok,
        all_names_ok(tar_members(b)) ==> tar_read(r->Ok_0@).0 == tar_members(b),
        all_names_ok(tar_members(b)) ==> !tar_read(r->Ok_0@).1,
{
    b.builder.into_inner().map_err(|e| e.to_string())
}

/// The view of a list of members.
pub open spec fn members_view(v: Seq<(String, Vec<u8>)>) -> Seq<(Seq<char>, Seq<u8>)> {
    v.map_values(|m: (String, Vec<u8>)| (m.0@, m.1@))
}

/// Reads the members of an archive in order (`tar::Archive::new`,
/// `Archive::entries`, then per entry `Entry::path` shown lossily as UTF-8
/// and `read_to_end`), stopping at the first error. The result is named by
/// [`tar_read`].
#[verifier::external_body]
pub(crate) fn tar_read_members(data: &[u8]) -> (r: (Vec<(String, Vec<u8>)>, bool))
    ensures
        tar_read(data@).0 == members_view(r.0@),
        tar_read(data@).1 == r.1,
{
    let mut out = Vec::new();
    let mut archive = tar::Archive::new(data);
    let Ok(entries) = archive.entries() else { return (out, true) };
    for entry in entries {
        let Ok(mut entry) = entry else { return (out, true) };
        let Ok(path) = entry.path().map(|p| p.to_string_lossy().to_string()) else { return (out, true) };
        let mut content = Vec::new();
        if std::io::Read::read_to_end(&mut entry, &mut content).is_err() {
            return (out, true);
        }
        out.push((path, content));
    }
    (out, false)
}

} // verus!
