//! Writing sliver archives.

use vstd::prelude::*;
use vstd::string::StringExecFns;
use crate::vfs::types::{VfsPath, VfsFile, path_canonical, lemma_join_canonical, lemma_utf8_concat};
use crate::sliver::error::{SliverError, SliverResult};
use crate::sliver::format::{HEAP_FILENAME, MANIFEST_FILENAME, METADATA_FILENAME, VFS_PREFIX};
use crate::sliver::metadata::{SliverMetadata, metadata_text};
use crate::sliver::json::utf8_bytes;
use crate::sliver::tarball::{
    TarWriter, tar_members, tar_header_fields, tar_read, tar_name_ok, tar_name_form, all_names_ok, tar_builder_new,
    tar_append, tar_into_bytes,
};
use crate::vfs::types::{lemma_scan_no_slash, normalize_path, norm_scan, norm_flush};

verus! {

/// The mode of every member of an archive: readable by all, writable by
/// the owner.
pub const FILE_MODE: u32 = 0o644;

/// Seconds since the Unix epoch for a time in nanoseconds.
pub open spec fn seconds_of(nanos: u64) -> u64 {
    (nanos / 1_000_000_000) as u64
}

/// The header fields for a list of VFS files: the file mode and each file's
/// modification time in seconds.
pub open spec fn vfs_header_fields(entries: Seq<(VfsPath, VfsFile)>) -> Seq<(u32, u64)> {
    entries.map_values(|e: (VfsPath, VfsFile)| (FILE_MODE, seconds_of(e.1.modified_at)))
}

/// First lines of every manifest.
pub const MANIFEST_HEADER: &'static str = "# Sliver Archive Manifest\n# =========================\n\n";

/// The manifest text listing `names`, one per line, after the header.
pub open spec fn manifest_text(names: Seq<Seq<char>>) -> Seq<char>
    decreases names.len(),
{
    if names.len() == 0 {
        MANIFEST_HEADER@
    } else {
        manifest_text(names.drop_last()) + names.last() + seq!['\n']
    }
}

/// The views of a list of strings.
pub open spec fn strings_view(v: Seq<String>) -> Seq<Seq<char>> {
    v.map_values(|s: String| s@)
}

/// The manifest text listing `entries`.
pub fn build_manifest(entries: &[String]) -> (r: String)
    ensures
        r@ == manifest_text(strings_view(entries@)),
{
    let mut manifest = String::from_str(MANIFEST_HEADER);
    let mut i: usize = 0;
    while i < entries.len()
        invariant
            i <= entries@.len(),
            manifest@ == manifest_text(strings_view(entries@.subrange(0, i as int))),
        decreases entries@.len() - i,
    {
        manifest.append(entries[i].as_str());
        manifest.append("\n");
        proof {
            reveal_strlit("\n");
            let next = strings_view(entries@.subrange(0, i + 1));
            assert(next.drop_last() =~= strings_view(entries@.subrange(0, i as int)));
        }
        i = i + 1;
    }
    assert(entries@.subrange(0, entries@.len() as int) =~= entries@);
    manifest
}

/// The archive name of the VFS file at `path`.
pub open spec fn vfs_member_name(path: Seq<char>) -> Seq<char> {
    VFS_PREFIX@ + path
}

/// Whether an archive name fits the 100-byte name field.
pub open spec fn name_fits(name: Seq<char>) -> bool {
    vstd::utf8::encode_utf8(name).len() <= 100
}

/// The members for a list of VFS files: prefixed path and content.
pub open spec fn vfs_members(entries: Seq<(VfsPath, VfsFile)>) -> Seq<(Seq<char>, Seq<u8>)> {
    entries.map_values(|e: (VfsPath, VfsFile)| (vfs_member_name(e.0@), e.1.content@))
}

/// The names of a list of members.
pub open spec fn member_names(ms: Seq<(Seq<char>, Seq<u8>)>) -> Seq<Seq<char>> {
    ms.map_values(|m: (Seq<char>, Seq<u8>)| m.0)
}

/// Whether every member name fits.
pub open spec fn all_fit(ms: Seq<(Seq<char>, Seq<u8>)>) -> bool {
    forall|i: int| 0 <= i < ms.len() ==> name_fits(#[trigger] ms[i].0)
}

/// The manifest member listing the members `ms`.
pub open spec fn manifest_member(ms: Seq<(Seq<char>, Seq<u8>)>) -> (Seq<char>, Seq<u8>) {
    (MANIFEST_FILENAME@, vstd::utf8::encode_utf8(manifest_text(member_names(ms))))
}

/// The members of a complete archive: metadata, heap, the VFS files, and
/// the manifest listing those.
pub open spec fn sliver_members(meta_json: Seq<u8>, heap: Seq<u8>, files: Seq<(Seq<char>, Seq<u8>)>) -> Seq<
    (Seq<char>, Seq<u8>),
> {
    let body = seq![(METADATA_FILENAME@, meta_json), (HEAP_FILENAME@, heap)] + files;
    body.push(manifest_member(body))
}

/// A fixed name without `/`, `.` or `..` segments is stored as it is.
proof fn lemma_plain_name(name: Seq<char>)
    requires
        2 < name.len() <= 100,
        !name.contains('/'),
        !name.contains('\0'),
        vstd::utf8::is_ascii_chars(name),
    ensures
        tar_name_ok(name),
{
    lemma_scan_no_slash(name);
    assert(name != seq!['.']);
    assert(name != seq!['.', '.']);
    assert(norm_flush(norm_scan(name)).out == name);
    vstd::utf8::is_ascii_chars_encode_utf8(name);
}

/// The fixed member names are stored as they are.
pub proof fn lemma_fixed_names()
    ensures
        tar_name_ok(METADATA_FILENAME@),
        tar_name_ok(HEAP_FILENAME@),
        tar_name_ok(MANIFEST_FILENAME@),
        VFS_PREFIX@ == seq!['v', 'f', 's', '/'],
{
    reveal_strlit("meta.json");
    reveal_strlit("heap.bin");
    reveal_strlit("manifest.txt");
    reveal_strlit("vfs/");
    lemma_plain_name(METADATA_FILENAME@);
    lemma_plain_name(HEAP_FILENAME@);
    lemma_plain_name(MANIFEST_FILENAME@);
}

/// The archive name of a VFS path has the stored form, and its length is
/// four bytes more than the path's.
pub proof fn lemma_vfs_name(path: Seq<char>)
    requires
        path_canonical(path),
    ensures
        tar_name_form(vfs_member_name(path)),
        vstd::utf8::encode_utf8(vfs_member_name(path)).len() == 4 + vstd::utf8::encode_utf8(
            path,
        ).len(),
{
    lemma_fixed_names();
    let vfs = seq!['v', 'f', 's'];
    lemma_plain_name(vfs);
    assert(vfs_member_name(path) =~= vfs + seq!['/'] + path);
    if path.len() == 0 {
        assert(vfs_member_name(path).drop_last() =~= vfs);
    } else {
        lemma_join_canonical(vfs, path);
    }
    lemma_utf8_concat(VFS_PREFIX@, path);
    vstd::utf8::is_ascii_chars_encode_utf8(VFS_PREFIX@);
}

/// Incrementally writes a sliver archive.
pub struct SliverPacker {
    writer: TarWriter,
    entries: Vec<String>,
}

impl SliverPacker {
    /// The members written so far.
    pub closed spec fn members(&self) -> Seq<(Seq<char>, Seq<u8>)> {
        tar_members(self.writer)
    }

    /// The mode and modification time of each member written so far.
    pub closed spec fn header_fields(&self) -> Seq<(u32, u64)> {
        tar_header_fields(self.writer)
    }

    /// Whether the names listed for the manifest are those of the members,
    /// and every member name is stored as it is.
    pub closed spec fn wf(&self) -> bool {
        &&& all_names_ok(self.members())
        &&& strings_view(self.entries@) == member_names(self.members())
    }

    /// Appends one member whose name is stored as it is, with the file mode
    /// and modification time `mtime`.
    fn append_member(&mut self, name: String, data: &[u8], mtime: u64) -> (r: SliverResult<()>)
        requires
            old(self).wf(),
            tar_name_form(name@),
        ensures
            final(self).wf(),
            r is Ok <==> name_fits(name@),
            r is Ok ==> final(self).members() == old(self).members().push((name@, data@)),
            r is Err ==> final(self).members() == old(self).members() && r->Err_0 is Io,
            r is Ok ==> final(self).header_fields() == old(self).header_fields().push((FILE_MODE, mtime)),
            r is Err ==> final(self).header_fields() == old(self).header_fields(),
    {
        match tar_append(&mut self.writer, name.as_str(), data, FILE_MODE, mtime) {
            Ok(()) => {
                let ghost before = strings_view(self.entries@);
                let ghost nv = name@;
                self.entries.push(name);
                assert(strings_view(self.entries@) =~= before.push(nv));
                assert(member_names(self.members()) =~= member_names(old(self).members()).push(nv));
                Ok(())
            },
            Err(e) => Err(SliverError::Io(e)),
        }
    }

    /// An empty packer.
    pub fn new() -> (r: SliverPacker)
        ensures
            r.wf(),
            r.members().len() == 0,
            r.header_fields().len() == 0,
    {
        let p = SliverPacker { writer: tar_builder_new(), entries: Vec::new() };
        assert(strings_view(p.entries@) =~= member_names(p.members()));
        p
    }

    /// Adds `meta.json` holding the JSON text of `metadata`.
    pub fn add_metadata(&mut self, metadata: &SliverMetadata) -> (r: SliverResult<()>)
        requires
            old(self).wf(),
        ensures
            final(self).wf(),
            r is Ok,
            final(self).members() == old(self).members().push(
                (METADATA_FILENAME@, vstd::utf8::encode_utf8(metadata_text(metadata@))),
            ),
            final(self).header_fields() == old(self).header_fields().push((FILE_MODE, 0u64)),
    {
        proof {
            lemma_fixed_names();
        }
        let json = metadata.to_json();
        self.append_member(String::from_str(METADATA_FILENAME), json.as_slice(), 0)
    }

    /// Adds `heap.bin` holding `heap_data`.
    pub fn add_heap(&mut self, heap_data: &[u8]) -> (r: SliverResult<()>)
        requires
            old(self).wf(),
        ensures
            final(self).wf(),
            r is Ok,
            final(self).members() == old(self).members().push((HEAP_FILENAME@, heap_data@)),
            final(self).header_fields() == old(self).header_fields().push((FILE_MODE, 0u64)),
    {
        proof {
            lemma_fixed_names();
        }
        self.append_member(String::from_str(HEAP_FILENAME), heap_data, 0)
    }

    /// Adds the file at `path` under `vfs/`, stamped with the file's
    /// modification time in seconds. Fails, changing nothing, where the
    /// archive name exceeds 100 bytes.
    pub fn add_vfs_entry(&mut self, path: &VfsPath, file: &VfsFile) -> (r: SliverResult<()>)
        requires
            old(self).wf(),
        ensures
            final(self).wf(),
            r is Ok <==> name_fits(vfs_member_name(path@)),
            r is Ok ==> final(self).members() == old(self).members().push(
                (vfs_member_name(path@), file.content@),
            ),
            r is Err ==> final(self).members() == old(self).members() && r->Err_0 is Io,
            r is Ok ==> final(self).header_fields() == old(self).header_fields().push(
                (FILE_MODE, seconds_of(file.modified_at)),
            ),
            r is Err ==> final(self).header_fields() == old(self).header_fields(),
    {
        proof {
            use_type_invariant(path);
            lemma_vfs_name(path@);
        }
        let mut name = String::from_str(VFS_PREFIX);
        name.append(path.as_str());
        self.append_member(name, file.content.as_slice(), file.modified_at / 1_000_000_000)
    }

    /// Adds the files in order, stopping at the first whose archive name
    /// exceeds 100 bytes; the files before it stay added.
    pub fn add_vfs_entries(&mut self, entries: &[(VfsPath, VfsFile)]) -> (r: SliverResult<()>)
        requires
            old(self).wf(),
        ensures
            final(self).wf(),
            r is Ok <==> all_fit(vfs_members(entries@)),
            r is Ok ==> final(self).members() == old(self).members() + vfs_members(entries@),
            r is Ok ==> final(self).header_fields() == old(self).header_fields() + vfs_header_fields(
                entries@,
            ),
            r is Err ==> r->Err_0 is Io,
            r is Err ==> exists|k: int|
                0 <= k < entries@.len() && !name_fits(#[trigger] vfs_members(entries@)[k].0)
                    && all_fit(vfs_members(entries@).subrange(0, k)) && final(self).members()
                    == old(self).members() + vfs_members(entries@).subrange(0, k),
    {
        let ghost all = vfs_members(entries@);
        let ghost fields = vfs_header_fields(entries@);
        let mut i: usize = 0;
        while i < entries.len()
            invariant
                i <= entries@.len(),
                all == vfs_members(entries@),
                fields == vfs_header_fields(entries@),
                self.header_fields() == old(self).header_fields() + fields.subrange(0, i as int),
                self.wf(),
                all_fit(all.subrange(0, i as int)),
                self.members() == old(self).members() + all.subrange(0, i as int),
            decreases entries@.len() - i,
        {
            let ghost before = self.members();
            match self.add_vfs_entry(&entries[i].0, &entries[i].1) {
                Ok(()) => {
                    assert(all.subrange(0, i + 1) =~= all.subrange(0, i as int).push(all[i as int]));
                    assert(self.members() =~= old(self).members() + all.subrange(0, i + 1));
                    assert(fields.subrange(0, i + 1) =~= fields.subrange(0, i as int).push(fields[i as int]));
                    assert(self.header_fields() =~= old(self).header_fields() + fields.subrange(0, i + 1));
                },
                Err(e) => {
                    assert(!name_fits(all[i as int].0));
                    assert(!all_fit(all));
                    return Err(e);
                },
            }
            i = i + 1;
        }
        assert(all.subrange(0, entries@.len() as int) =~= all);
        assert(fields.subrange(0, entries@.len() as int) =~= fields);
        Ok(())
    }

    /// Adds `manifest.txt` listing the members written so far.
    fn add_manifest(&mut self) -> (r: SliverResult<()>)
        requires
            old(self).wf(),
        ensures
            final(self).wf(),
            r is Ok,
            final(self).members() == old(self).members().push(manifest_member(old(self).members())),
            final(self).header_fields() == old(self).header_fields().push((FILE_MODE, 0u64)),
    {
        proof {
            lemma_fixed_names();
        }
        let manifest = build_manifest(self.entries.as_slice());
        let bytes = utf8_bytes(manifest.as_str());
        self.append_member(String::from_str(MANIFEST_FILENAME), bytes.as_slice(), 0)
    }

    /// Adds the manifest and finishes the archive. Reading the bytes back
    /// yields the members written, then the manifest, without error.
    pub fn finalize(self) -> (r: SliverResult<Vec<u8>>)
        requires
            self.wf(),
        ensures
            r is Ok,
            tar_read(r->Ok_0@).0 == self.members().push(manifest_member(self.members())),
            !tar_read(r->Ok_0@).1,
    {
        let mut p = self;
        let _ = p.add_manifest();
        match tar_into_bytes(p.writer) {
            Ok(bytes) => Ok(bytes),
            Err(e) => Err(SliverError::Io(e)),
        }
    }
}

impl Default for SliverPacker {
    fn default() -> (r: Self)
        ensures
            r.wf(),
            r.members().len() == 0,
            r.header_fields().len() == 0,
    {
        SliverPacker::new()
    }
}

/// Packs a complete sliver: metadata, heap, the optional VFS files and the
/// manifest. Fails where the archive name of a VFS file exceeds 100 bytes;
/// otherwise reading the archive back yields exactly those members.
pub fn pack_sliver(metadata: &SliverMetadata, heap_data: &[u8], vfs_entries: Option<&[(VfsPath, VfsFile)]>) -> (r: SliverResult<Vec<u8>>)
    ensures
        ({
            let files = match vfs_entries {
                Some(es) => vfs_members(es@),
                None => Seq::empty(),
            };
            &&& r is Ok <==> all_fit(files)
            &&& r is Ok ==> tar_read(r->Ok_0@).0 == sliver_members(
                vstd::utf8::encode_utf8(metadata_text(metadata@)),
                heap_data@,
                files,
            )
            &&& r is Ok ==> !tar_read(r->Ok_0@).1
            &&& r is Err ==> r->Err_0 is Io
        }),
{
    let mut packer = SliverPacker::new();
    let _ = packer.add_metadata(metadata);
    let _ = packer.add_heap(heap_data);
    let ghost head = packer.members();
    match vfs_entries {
        Some(entries) => {
            match packer.add_vfs_entries(entries) {
                Ok(()) => {},
                Err(e) => {
                    return Err(e);
                },
            }
        },
        None => {
            assert(head + Seq::<(Seq<char>, Seq<u8>)>::empty() =~= head);
        },
    }
    let ghost body = packer.members();
    proof {
        let files = match vfs_entries {
            Some(es) => vfs_members(es@),
            None => Seq::empty(),
        };
        assert(body =~= seq![
            (METADATA_FILENAME@, vstd::utf8::encode_utf8(metadata_text(metadata@))),
            (HEAP_FILENAME@, heap_data@),
        ] + files);
    }
    packer.finalize()
}

} // verus!
