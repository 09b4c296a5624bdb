//! What packing and unpacking promise together.

use vstd::prelude::*;
use crate::text::seq_starts_with;
use crate::vfs::types::{path_canonical, seq_accepted, normalize_path};
use crate::sliver::format::{HEAP_FILENAME, METADATA_FILENAME, MANIFEST_FILENAME, VFS_PREFIX, version_supported};
use crate::sliver::metadata::{MetadataView, metadata_text, metadata_of_text};
use crate::sliver::packer::{sliver_members, vfs_member_name, name_fits, lemma_fixed_names, manifest_member};
use crate::sliver::unpacker::{UnpackOutcome, UnpackedView, ScanView, scan_members, scan_member, unpack_outcome, unpack_members};
use crate::sliver::tarball::tar_read;

verus! {

/// The archive members of a list of VFS files.
pub open spec fn prefixed_files(files: Seq<(Seq<char>, Seq<u8>)>) -> Seq<(Seq<char>, Seq<u8>)> {
    files.map_values(|f: (Seq<char>, Seq<u8>)| (vfs_member_name(f.0), f.1))
}

/// Whether every file has a normalized path whose archive name fits.
pub open spec fn files_packable(files: Seq<(Seq<char>, Seq<u8>)>) -> bool {
    forall|i: int|
        0 <= i < files.len() ==> path_canonical(#[trigger] files[i].0) && name_fits(
            vfs_member_name(files[i].0),
        )
}

/// What unpacking a packed sliver gives: the metadata read back from the
/// packed JSON text (failing where it reads back as none, or names an
/// unsupported format), with the packed heap and files.
pub open spec fn expected_unpack(meta: MetadataView, heap: Seq<u8>, files: Seq<(Seq<char>, Seq<u8>)>) -> UnpackOutcome {
    match metadata_of_text(vstd::utf8::encode_utf8(metadata_text(meta))) {
        None => UnpackOutcome::BadMetadata,
        Some(m) => if version_supported(m.format_version) {
            UnpackOutcome::Unpacked(UnpackedView { metadata: m, heap, files })
        } else {
            UnpackOutcome::InvalidFormat(m.format_version)
        },
    }
}

/// Reading the VFS members after metadata and heap collects the files.
proof fn lemma_scan_files(
    head: Seq<(Seq<char>, Seq<u8>)>,
    st: ScanView,
    files: Seq<(Seq<char>, Seq<u8>)>,
    k: int,
)
    requires
        scan_members(head) == Ok::<ScanView, UnpackOutcome>(st),
        files_packable(files),
        0 <= k <= files.len(),
        VFS_PREFIX@ == seq!['v', 'f', 's', '/'],
        METADATA_FILENAME@[0] == 'm',
        HEAP_FILENAME@[0] == 'h',
    ensures
        scan_members(head + prefixed_files(files).subrange(0, k)) == Ok::<ScanView, UnpackOutcome>(
            ScanView { files: st.files + files.subrange(0, k), ..st },
        ),
    decreases k,
{
    if k == 0 {
        assert(head + prefixed_files(files).subrange(0, 0) =~= head);
        assert(st.files + files.subrange(0, 0) =~= st.files);
    } else {
        lemma_scan_files(head, st, files, k - 1);
        let all = head + prefixed_files(files).subrange(0, k);
        assert(all.drop_last() =~= head + prefixed_files(files).subrange(0, k - 1));
        let f = files[k - 1];
        let name = vfs_member_name(f.0);
        assert(all.last() == (name, f.1));
        assert(name[0] == 'v');
        assert(name != METADATA_FILENAME@);
        assert(name != HEAP_FILENAME@);
        assert(name.subrange(0, 4) =~= VFS_PREFIX@);
        assert(seq_starts_with(name, VFS_PREFIX@));
        assert(name.subrange(4, name.len() as int) =~= f.0);
        assert(path_canonical(f.0) && name_fits(name));
        crate::sliver::packer::lemma_vfs_name(f.0);
        assert(seq_accepted(f.0));
        assert(st.files + files.subrange(0, k) =~= (st.files + files.subrange(0, k - 1)).push(f));
    }
}

/// Unpacking a packed sliver gives back the packed heap and files (paths
/// and contents, in order) with the metadata read back from the packed JSON
/// text; it fails only where that text reads back as no metadata, or as one
/// naming an unsupported format. The archive is any text that the tar layer
/// reads back as the packed members, which is what packing produces.
pub proof fn law_pack_then_unpack(
    archive: Seq<u8>,
    meta: MetadataView,
    heap: Seq<u8>,
    files: Seq<(Seq<char>, Seq<u8>)>,
)
    requires
        files_packable(files),
        tar_read(archive).0 == sliver_members(
            vstd::utf8::encode_utf8(metadata_text(meta)),
            heap,
            prefixed_files(files),
        ),
        !tar_read(archive).1,
    ensures
        unpack_outcome(archive) == expected_unpack(meta, heap, files),
{
    lemma_fixed_names();
    reveal_strlit("meta.json");
    reveal_strlit("heap.bin");
    reveal_strlit("manifest.txt");
    let json = vstd::utf8::encode_utf8(metadata_text(meta));
    let head = seq![(METADATA_FILENAME@, json), (HEAP_FILENAME@, heap)];
    let one = seq![(METADATA_FILENAME@, json)];
    assert(head.drop_last() =~= one);
    assert(one.drop_last() =~= Seq::<(Seq<char>, Seq<u8>)>::empty());
    let empty_scan = ScanView { meta: None, heap: None, files: Seq::empty() };
    assert(scan_members(Seq::<(Seq<char>, Seq<u8>)>::empty()) == Ok::<ScanView, UnpackOutcome>(empty_scan));
    assert(one.last() == (METADATA_FILENAME@, json));
    assert(head.last() == (HEAP_FILENAME@, heap));
    assert(HEAP_FILENAME@ != METADATA_FILENAME@) by {
        assert(HEAP_FILENAME@[0] != METADATA_FILENAME@[0]);
    }
    assert(scan_members(one) == scan_member(empty_scan, (METADATA_FILENAME@, json)));
    let body = head + prefixed_files(files);
    let ms = body.push(manifest_member(body));
    assert(ms.drop_last() =~= body);
    match metadata_of_text(json) {
        None => {
            assert(scan_members(one) == Err::<ScanView, UnpackOutcome>(UnpackOutcome::BadMetadata));
            assert(scan_members(head) == Err::<ScanView, UnpackOutcome>(UnpackOutcome::BadMetadata));
            assert forall|k: int| 0 <= k <= prefixed_files(files).len() implies scan_members(
                head + prefixed_files(files).subrange(0, k),
            ) == Err::<ScanView, UnpackOutcome>(UnpackOutcome::BadMetadata) by {
                lemma_scan_err_files(head, prefixed_files(files), k);
            }
            assert(prefixed_files(files).subrange(0, prefixed_files(files).len() as int) =~= prefixed_files(files));
        },
        Some(m) => {
            let st = ScanView { meta: Some(m), heap: Some(heap), files: Seq::empty() };
            assert(scan_members(head) == Ok::<ScanView, UnpackOutcome>(st));
            lemma_scan_files(head, st, files, files.len() as int);
            assert(prefixed_files(files).subrange(0, files.len() as int) =~= prefixed_files(files));
            assert(Seq::<(Seq<char>, Seq<u8>)>::empty() + files.subrange(0, files.len() as int) =~= files);
            assert(MANIFEST_FILENAME@ != METADATA_FILENAME@);
            assert(MANIFEST_FILENAME@ != HEAP_FILENAME@);
            assert(!seq_starts_with(MANIFEST_FILENAME@, VFS_PREFIX@)) by {
                assert(MANIFEST_FILENAME@.subrange(0, 4)[0] == 'm');
            }
        },
    }
    assert(tar_read(archive).0 == ms);
}

/// Once the reading has stopped, further members do not change how it ends.
proof fn lemma_scan_err_files(head: Seq<(Seq<char>, Seq<u8>)>, rest: Seq<(Seq<char>, Seq<u8>)>, k: int)
    requires
        scan_members(head) is Err,
        0 <= k <= rest.len(),
    ensures
        scan_members(head + rest.subrange(0, k)) == scan_members(head),
    decreases k,
{
    if k == 0 {
        assert(head + rest.subrange(0, 0) =~= head);
    } else {
        lemma_scan_err_files(head, rest, k - 1);
        assert((head + rest.subrange(0, k)).drop_last() =~= head + rest.subrange(0, k - 1));
    }
}

} // verus!
