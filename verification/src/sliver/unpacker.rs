//! Reading sliver archives.

use vstd::prelude::*;
use vstd::string::StringExecFns;
use crate::text::{str_chars, str_eq, chars_start_with, chars_slice, string_from_chars, seq_starts_with, decimal, push_decimal};
use crate::sliver::metadata::metadata_text;
use crate::sliver::json::push_text;
use crate::vfs::types::{VfsPath, VfsFile, now_nanos, seq_accepted, normalize_path};
use crate::sliver::error::{SliverError, SliverResult};
use crate::sliver::format::{
    HEAP_FILENAME, METADATA_FILENAME, VFS_PREFIX, FORMAT_VERSION, SliverFormat, version_supported,
};
use crate::sliver::metadata::{SliverMetadata, MetadataView, metadata_of_text};
use crate::sliver::tarball::{tar_read, tar_read_members, members_view};

verus! {

/// The mathematical value of an [`UnpackedSliver`].
pub struct UnpackedView {
    pub metadata: MetadataView,
    pub heap: Seq<u8>,
    /// VFS files: path and content.
    pub files: Seq<(Seq<char>, Seq<u8>)>,
}

/// The views of a list of VFS files: path and content.
pub open spec fn files_view(v: Seq<(VfsPath, VfsFile)>) -> Seq<(Seq<char>, Seq<u8>)> {
    v.map_values(|e: (VfsPath, VfsFile)| (e.0@, e.1.content@))
}

/// The contents of a sliver archive.
#[derive(Debug)]
pub struct UnpackedSliver {
    /// The metadata from `meta.json`.
    pub metadata: SliverMetadata,
    /// The heap blob from `heap.bin`.
    pub heap_data: Vec<u8>,
    /// The files found under `vfs/`, in archive order.
    pub vfs_entries: Vec<(VfsPath, VfsFile)>,
}

impl View for UnpackedSliver {
    type V = UnpackedView;

    open spec fn view(&self) -> UnpackedView {
        UnpackedView {
            metadata: self.metadata@,
            heap: self.heap_data@,
            files: files_view(self.vfs_entries@),
        }
    }
}

/// How reading an archive ends.
pub enum UnpackOutcome {
    Unpacked(UnpackedView),
    MissingMetadata,
    MissingHeap,
    InvalidFormat(Seq<char>),
    InvalidVfsPath(Seq<char>),
    BadMetadata,
    TarError,
}

/// What has been gathered from the members read so far.
pub struct ScanView {
    pub meta: Option<MetadataView>,
    pub heap: Option<Seq<u8>>,
    pub files: Seq<(Seq<char>, Seq<u8>)>,
}

/// Takes in one member: `meta.json` is read as metadata (a text that is no
/// metadata stops the reading), `heap.bin` is the heap, a name under `vfs/`
/// is a VFS file whose path must be valid, and anything else is skipped.
/// A later `meta.json` or `heap.bin` replaces an earlier one.
pub open spec fn scan_member(st: ScanView, m: (Seq<char>, Seq<u8>)) -> Result<ScanView, UnpackOutcome> {
    if m.0 == METADATA_FILENAME@ {
        match metadata_of_text(m.1) {
            Some(md) => Ok(ScanView { meta: Some(md), ..st }),
            None => Err(UnpackOutcome::BadMetadata),
        }
    } else if m.0 == HEAP_FILENAME@ {
        Ok(ScanView { heap: Some(m.1), ..st })
    } else if seq_starts_with(m.0, VFS_PREFIX@) {
        let rest = m.0.subrange(VFS_PREFIX@.len() as int, m.0.len() as int);
        if seq_accepted(rest) {
            Ok(ScanView { files: st.files.push((normalize_path(rest)->0, m.1)), ..st })
        } else {
            Err(UnpackOutcome::InvalidVfsPath(rest))
        }
    } else {
        Ok(st)
    }
}

/// Takes in the members in order, stopping at the first that stops the
/// reading.
pub open spec fn scan_members(ms: Seq<(Seq<char>, Seq<u8>)>) -> Result<ScanView, UnpackOutcome>
    decreases ms.len(),
{
    if ms.len() == 0 {
        Ok(ScanView { meta: None, heap: None, files: Seq::empty() })
    } else {
        match scan_members(ms.drop_last()) {
            Ok(st) => scan_member(st, ms.last()),
            Err(e) => Err(e),
        }
    }
}

/// How reading the members `ms` ends, where `failed` says whether the tar
/// layer failed after them: a member that stops the reading comes first,
/// then the tar failure, then a missing metadata or heap member, then an
/// unsupported format version.
pub open spec fn unpack_members(ms: Seq<(Seq<char>, Seq<u8>)>, failed: bool) -> UnpackOutcome {
    match scan_members(ms) {
        Err(e) => e,
        Ok(st) => {
            if failed {
                UnpackOutcome::TarError
            } else if st.meta is None {
                UnpackOutcome::MissingMetadata
            } else if st.heap is None {
                UnpackOutcome::MissingHeap
            } else if !version_supported(st.meta->0.format_version) {
                UnpackOutcome::InvalidFormat(st.meta->0.format_version)
            } else {
                UnpackOutcome::Unpacked(
                    UnpackedView { metadata: st.meta->0, heap: st.heap->0, files: st.files },
                )
            }
        },
    }
}

/// How reading the archive `data` ends.
pub open spec fn unpack_outcome(data: Seq<u8>) -> UnpackOutcome {
    unpack_members(tar_read(data).0, tar_read(data).1)
}

/// The outcome an unpacking result reports.
pub open spec fn outcome_of(r: SliverResult<UnpackedSliver>) -> UnpackOutcome {
    match r {
        Ok(u) => UnpackOutcome::Unpacked(u@),
        Err(SliverError::MissingMetadata { .. }) => UnpackOutcome::MissingMetadata,
        Err(SliverError::MissingHeap { .. }) => UnpackOutcome::MissingHeap,
        Err(SliverError::InvalidFormat { version }) => UnpackOutcome::InvalidFormat(version@),
        Err(SliverError::InvalidVfsPath { path }) => UnpackOutcome::InvalidVfsPath(path@),
        Err(SliverError::Json(_)) => UnpackOutcome::BadMetadata,
        Err(_) => UnpackOutcome::TarError,
    }
}

/// Whether every unpacked file records its content length as its size.
pub open spec fn sizes_recorded(r: SliverResult<UnpackedSliver>) -> bool {
    r matches Ok(u) ==> forall|i: int|
        0 <= i < u.vfs_entries@.len() ==> (#[trigger] u.vfs_entries@[i]).1.size
            == u.vfs_entries@[i].1.content@.len()
}

/// Once a prefix of the members stops the reading, the whole list does, with
/// the same outcome.
proof fn lemma_scan_stops(ms: Seq<(Seq<char>, Seq<u8>)>, k: int)
    requires
        0 <= k <= ms.len(),
        scan_members(ms.subrange(0, k)) is Err,
    ensures
        scan_members(ms) == scan_members(ms.subrange(0, k)),
    decreases ms.len() - k,
{
    if k < ms.len() {
        assert(ms.subrange(0, k + 1).drop_last() =~= ms.subrange(0, k));
        lemma_scan_stops(ms, k + 1);
    } else {
        assert(ms.subrange(0, k) =~= ms);
    }
}

/// The view of an optional metadata value.
pub open spec fn opt_meta_view(o: Option<SliverMetadata>) -> Option<MetadataView> {
    match o {
        Some(m) => Some(m@),
        None => None,
    }
}

/// The view of an optional byte buffer.
pub open spec fn opt_bytes_view(o: Option<Vec<u8>>) -> Option<Seq<u8>> {
    match o {
        Some(v) => Some(v@),
        None => None,
    }
}

/// A copy of a byte buffer.
fn copy_bytes(b: &Vec<u8>) -> (r: Vec<u8>)
    ensures
        r@ == b@,
{
    let r = b.clone();
    assert(r@ =~= b@);
    r
}


/// The sum of the content lengths of a list of files.
pub open spec fn files_bytes(fs: Seq<(Seq<char>, Seq<u8>)>) -> nat
    decreases fs.len(),
{
    if fs.len() == 0 {
        0
    } else {
        files_bytes(fs.drop_last()) + fs.last().1.len()
    }
}

/// A prefix of a list of files holds no more bytes than the list.
proof fn lemma_files_bytes_prefix(fs: Seq<(Seq<char>, Seq<u8>)>, k: int)
    requires
        0 <= k <= fs.len(),
    ensures
        files_bytes(fs.subrange(0, k)) <= files_bytes(fs),
    decreases fs.len() - k,
{
    if k < fs.len() {
        lemma_files_bytes_prefix(fs, k + 1);
        assert(fs.subrange(0, k + 1).drop_last() =~= fs.subrange(0, k));
    } else {
        assert(fs.subrange(0, k) =~= fs);
    }
}

/// The size of unpacked contents: the metadata's JSON text, the heap and
/// all file contents.
pub open spec fn total_size_of(v: UnpackedView) -> nat {
    vstd::utf8::encode_utf8(metadata_text(v.metadata)).len() + v.heap.len() + files_bytes(v.files)
}

/// The summary text of unpacked contents.
pub open spec fn summary_text(v: UnpackedView) -> Seq<char> {
    "Unpacked Sliver:\n  Hostname: "@ + v.metadata.hostname + "\n  Format: "@
        + v.metadata.format_version + "\n  Heap: "@ + decimal(v.heap.len()) + " bytes\n  VFS: "@
        + decimal(v.files.len()) + " entries\n  Total: "@ + decimal(total_size_of(v)) + " bytes"@
}

impl UnpackedSliver {
    /// Contents made of the given parts.
    pub fn new(metadata: SliverMetadata, heap_data: Vec<u8>, vfs_entries: Vec<(VfsPath, VfsFile)>) -> (r: Self)
        ensures
            r.metadata == metadata,
            r.heap_data == heap_data,
            r.vfs_entries == vfs_entries,
    {
        UnpackedSliver { metadata, heap_data, vfs_entries }
    }

    /// The size of the metadata's JSON text, the heap and all file
    /// contents together.
    pub fn total_size(&self) -> (r: usize)
        requires
            total_size_of(self@) <= usize::MAX,
        ensures
            r == total_size_of(self@),
    {
        let meta = self.metadata.to_json();
        let mut total: usize = meta.len() + self.heap_data.len();
        let ghost fs = files_view(self.vfs_entries@);
        let mut i: usize = 0;
        while i < self.vfs_entries.len()
            invariant
                i <= self.vfs_entries@.len(),
                fs == files_view(self.vfs_entries@),
                total_size_of(self@) <= usize::MAX,
                total == meta@.len() + self.heap_data@.len() + files_bytes(fs.subrange(0, i as int)),
                meta@ == vstd::utf8::encode_utf8(metadata_text(self.metadata@)),
            decreases self.vfs_entries@.len() - i,
        {
            proof {
                lemma_files_bytes_prefix(fs, i + 1);
                assert(fs.subrange(0, i + 1).drop_last() =~= fs.subrange(0, i as int));
            }
            total = total + self.vfs_entries[i].1.content.len();
            i = i + 1;
        }
        assert(fs.subrange(0, fs.len() as int) =~= fs);
        total
    }

    /// A multi-line summary: hostname, format version, heap size, number of
    /// files and total size.
    pub fn summary(&self) -> (r: String)
        requires
            total_size_of(self@) <= usize::MAX,
        ensures
            r@ == summary_text(self@),
    {
        let total = self.total_size();
        let mut out: Vec<char> = Vec::new();
        push_text(&mut out, "Unpacked Sliver:\n  Hostname: ");
        crate::text::push_chars(&mut out, crate::text::str_chars(self.metadata.hostname.as_str()).as_slice());
        push_text(&mut out, "\n  Format: ");
        crate::text::push_chars(&mut out, crate::text::str_chars(self.metadata.format_version.as_str()).as_slice());
        push_text(&mut out, "\n  Heap: ");
        push_decimal(&mut out, self.heap_data.len());
        push_text(&mut out, " bytes\n  VFS: ");
        push_decimal(&mut out, self.vfs_entries.len());
        push_text(&mut out, " entries\n  Total: ");
        push_decimal(&mut out, total);
        push_text(&mut out, " bytes");
        assert(out@ =~= summary_text(self@));
        string_from_chars(out.as_slice())
    }
}

/// Reads the members of a sliver archive.
pub struct SliverUnpacker;

impl SliverUnpacker {
    /// Unpacks an archive: exactly the outcome [`unpack_outcome`] describes.
    pub fn unpack(archive_data: &[u8]) -> (r: SliverResult<UnpackedSliver>)
        ensures
            outcome_of(r) == unpack_outcome(archive_data@),
            sizes_recorded(r),
    {
        let (members, failed) = tar_read_members(archive_data);
        let ghost ms = members_view(members@);
        let mut metadata: Option<SliverMetadata> = None;
        let mut heap: Option<Vec<u8>> = None;
        let mut files: Vec<(VfsPath, VfsFile)> = Vec::new();
        let prefix = str_chars(VFS_PREFIX);
        let mut i: usize = 0;
        assert(ms.subrange(0, 0) =~= Seq::<(Seq<char>, Seq<u8>)>::empty());
        assert(files_view(files@) =~= Seq::<(Seq<char>, Seq<u8>)>::empty());
        while i < members.len()
            invariant
                i <= members@.len(),
                ms == members_view(members@),
                ms == tar_read(archive_data@).0,
                prefix@ == VFS_PREFIX@,
                scan_members(ms.subrange(0, i as int)) == Ok::<ScanView, UnpackOutcome>(
                    ScanView {
                        meta: opt_meta_view(metadata),
                        heap: opt_bytes_view(heap),
                        files: files_view(files@),
                    },
                ),
                forall|j: int|
                    0 <= j < files@.len() ==> (#[trigger] files@[j]).1.size
                        == files@[j].1.content@.len(),
            decreases members@.len() - i,
        {
            let ghost pre = ms.subrange(0, i as int);
            let ghost next = ms.subrange(0, i + 1);
            assert(next.drop_last() =~= pre);
            assert(next.last() == (members@[i as int].0@, members@[i as int].1@));
            let path = members[i].0.as_str();
            let content = &members[i].1;
            if str_eq(path, METADATA_FILENAME) {
                match SliverMetadata::from_json(content.as_slice()) {
                    Ok(m) => {
                        metadata = Some(m);
                    },
                    Err(e) => {
                        proof {
                            assert(scan_members(next) == Err::<ScanView, UnpackOutcome>(UnpackOutcome::BadMetadata));
                            lemma_scan_stops(ms, i + 1);
                        }
                        return Err(e);
                    },
                }
            } else if str_eq(path, HEAP_FILENAME) {
                heap = Some(copy_bytes(content));
            } else {
                let chars = str_chars(path);
                if chars_start_with(chars.as_slice(), prefix.as_slice()) {
                    let rest_chars = chars_slice(chars.as_slice(), prefix.len(), chars.len());
                    let rest = string_from_chars(rest_chars.as_slice());
                    match VfsPath::new(rest.as_str()) {
                        Ok(p) => {
                            let now = now_nanos();
                            let data = copy_bytes(content);
                            let size = data.len();
                            let file = VfsFile { content: data, created_at: now, modified_at: now, size };
                            let ghost before = files_view(files@);
                            let ghost pv = p@;
                            let ghost cv = file.content@;
                            files.push((p, file));
                            assert(files_view(files@) =~= before.push((pv, cv)));
                        },
                        Err(_) => {
                            proof {
                                assert(rest@ == next.last().0.subrange(VFS_PREFIX@.len() as int, next.last().0.len() as int));
                                assert(scan_members(next) == Err::<ScanView, UnpackOutcome>(UnpackOutcome::InvalidVfsPath(rest@)));
                                lemma_scan_stops(ms, i + 1);
                            }
                            return Err(SliverError::InvalidVfsPath { path: rest });
                        },
                    }
                }
            }
            i = i + 1;
        }
        assert(ms.subrange(0, members@.len() as int) =~= ms);
        if failed {
            return Err(SliverError::Io(String::from_str("the tar archive could not be read")));
        }
        let metadata = match metadata {
            Some(m) => m,
            None => {
                return Err(SliverError::MissingMetadata { filename: String::from_str(METADATA_FILENAME) });
            },
        };
        let heap_data = match heap {
            Some(h) => h,
            None => {
                return Err(SliverError::MissingHeap { filename: String::from_str(HEAP_FILENAME) });
            },
        };
        if !SliverFormat::is_supported_version(metadata.format_version.as_str()) {
            let version = metadata.format_version.clone();
            return Err(SliverError::InvalidFormat { version });
        }
        Ok(UnpackedSliver { metadata, heap_data, vfs_entries: files })
    }

    /// Unpacks an archive and also refuses an empty heap blob.
    pub fn unpack_and_validate(archive_data: &[u8]) -> (r: SliverResult<UnpackedSliver>)
        ensures
            match unpack_outcome(archive_data@) {
                UnpackOutcome::Unpacked(v) => if v.heap.len() == 0 {
                    r matches Err(SliverError::CorruptedArchive { .. })
                } else {
                    outcome_of(r) == unpack_outcome(archive_data@)
                },
                _ => outcome_of(r) == unpack_outcome(archive_data@),
            },
            sizes_recorded(r),
    {
        let unpacked = SliverUnpacker::unpack(archive_data)?;
        if unpacked.heap_data.len() == 0 {
            return Err(SliverError::CorruptedArchive { reason: String::from_str("Heap data is empty") });
        }
        Ok(unpacked)
    }
}

/// Unpacks a sliver archive; the same as [`SliverUnpacker::unpack`].
pub fn unpack_sliver(archive_data: &[u8]) -> (r: SliverResult<UnpackedSliver>)
    ensures
        outcome_of(r) == unpack_outcome(archive_data@),
        sizes_recorded(r),
{
    SliverUnpacker::unpack(archive_data)
}

} // verus!
