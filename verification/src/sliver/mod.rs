//! The sliver archive: a tar file holding a runtime snapshot's metadata, its
//! heap blob and the files of its virtual file system.

pub mod format;
pub mod json;
pub mod error;
pub mod metadata;
pub mod tarball;
pub mod packer;
pub mod unpacker;
pub mod laws;
pub mod vfs_capture;
pub mod packager;
pub mod extractor;

use vstd::prelude::*;
use crate::text::str_eq;
use crate::sliver::error::{SliverError, SliverResult};
use crate::sliver::format::{HEAP_FILENAME, METADATA_FILENAME, FORMAT_VERSION, SliverFormat, version_supported};
use crate::sliver::metadata::{SliverMetadata, metadata_of_text};
use crate::sliver::tarball::{tar_read, tar_read_members, members_view};

verus! {

/// What a quick check of an archive finds.
pub enum CheckOutcome {
    Valid,
    MissingMetadata,
    MissingHeap,
    InvalidFormat(Seq<char>),
    BadMetadata,
    TarError,
}

/// What the check has seen so far: whether metadata and heap occurred, and
/// the format version of the last metadata.
pub struct CheckState {
    pub has_metadata: bool,
    pub has_heap: bool,
    pub version: Option<Seq<char>>,
}

/// Takes in one member: metadata is read (a text that is no metadata stops
/// the check), the heap is noted, anything else is skipped.
pub open spec fn check_member(st: CheckState, m: (Seq<char>, Seq<u8>)) -> Option<CheckState> {
    if m.0 == METADATA_FILENAME@ {
        match metadata_of_text(m.1) {
            Some(md) => Some(CheckState { has_metadata: true, version: Some(md.format_version), ..st }),
            None => None,
        }
    } else if m.0 == HEAP_FILENAME@ {
        Some(CheckState { has_heap: true, ..st })
    } else {
        Some(st)
    }
}

/// Takes in the members in order; `None` once a metadata text is no
/// metadata.
pub open spec fn check_members(ms: Seq<(Seq<char>, Seq<u8>)>) -> Option<CheckState>
    decreases ms.len(),
{
    if ms.len() == 0 {
        Some(CheckState { has_metadata: false, has_heap: false, version: None })
    } else {
        match check_members(ms.drop_last()) {
            Some(st) => check_member(st, ms.last()),
            None => None,
        }
    }
}

/// What checking the archive `data` finds.
pub open spec fn check_outcome(data: Seq<u8>) -> CheckOutcome {
    match check_members(tar_read(data).0) {
        None => CheckOutcome::BadMetadata,
        Some(st) => if tar_read(data).1 {
            CheckOutcome::TarError
        } else if !st.has_metadata {
            CheckOutcome::MissingMetadata
        } else if !st.has_heap {
            CheckOutcome::MissingHeap
        } else if !version_supported(st.version->0) {
            CheckOutcome::InvalidFormat(st.version->0)
        } else {
            CheckOutcome::Valid
        },
    }
}

/// The outcome a check result reports.
pub open spec fn check_result(r: SliverResult<()>) -> CheckOutcome {
    match r {
        Ok(()) => CheckOutcome::Valid,
        Err(SliverError::MissingMetadata { .. }) => CheckOutcome::MissingMetadata,
        Err(SliverError::MissingHeap { .. }) => CheckOutcome::MissingHeap,
        Err(SliverError::InvalidFormat { version }) => CheckOutcome::InvalidFormat(version@),
        Err(SliverError::Json(_)) => CheckOutcome::BadMetadata,
        Err(_) => CheckOutcome::TarError,
    }
}

/// Once a prefix stops the check, the whole list does.
proof fn lemma_check_stops(ms: Seq<(Seq<char>, Seq<u8>)>, k: int)
    requires
        0 <= k <= ms.len(),
        check_members(ms.subrange(0, k)) is None,
    ensures
        check_members(ms) is None,
    decreases ms.len() - k,
{
    if k < ms.len() {
        assert(ms.subrange(0, k + 1).drop_last() =~= ms.subrange(0, k));
        lemma_check_stops(ms, k + 1);
    } else {
        assert(ms.subrange(0, k) =~= ms);
    }
}

/// Whether member `i` of `ms` is the last one named `meta.json`.
pub open spec fn last_metadata_at(ms: Seq<(Seq<char>, Seq<u8>)>, i: int) -> bool {
    &&& 0 <= i < ms.len()
    &&& ms[i].0 == METADATA_FILENAME@
    &&& forall|j: int| i < j < ms.len() ==> #[trigger] ms[j].0 != METADATA_FILENAME@
}

/// Whether `text` is metadata naming the format version `v`.
pub open spec fn metadata_version_is(text: Seq<u8>, v: Seq<char>) -> bool {
    metadata_of_text(text) matches Some(md) && md.format_version == v
}

/// Whether some member of `ms` is named `name`.
pub open spec fn has_member(ms: Seq<(Seq<char>, Seq<u8>)>, name: Seq<char>) -> bool {
    exists|j: int| 0 <= j < ms.len() && #[trigger] ms[j].0 == name
}

/// What the check keeps of the members: whether a heap occurred, and the
/// format version read from the last `meta.json`.
proof fn lemma_check_members_facts(ms: Seq<(Seq<char>, Seq<u8>)>)
    requires
        check_members(ms) is Some,
    ensures
        check_members(ms)->0.has_heap <==> has_member(ms, HEAP_FILENAME@),
        check_members(ms)->0.has_metadata <==> check_members(ms)->0.version is Some,
        check_members(ms)->0.version is None ==> !has_member(ms, METADATA_FILENAME@),
        check_members(ms)->0.version matches Some(v) ==> exists|i: int|
            #[trigger] last_metadata_at(ms, i) && metadata_version_is(ms[i].1, v),
    decreases ms.len(),
{
    if ms.len() > 0 {
        let d = ms.drop_last();
        lemma_check_members_facts(d);
        let st = check_members(d)->0;
        let n = ms.len() - 1;
        let m = ms.last();
        assert forall|j: int| 0 <= j < d.len() implies #[trigger] d[j] == ms[j] by {}
        if has_member(d, HEAP_FILENAME@) {
            let j = choose|j: int| 0 <= j < d.len() && #[trigger] d[j].0 == HEAP_FILENAME@;
            assert(ms[j].0 == HEAP_FILENAME@);
        }
        if has_member(ms, HEAP_FILENAME@) && m.0 != HEAP_FILENAME@ {
            let j = choose|j: int| 0 <= j < ms.len() && #[trigger] ms[j].0 == HEAP_FILENAME@;
            assert(j != n);
            assert(d[j].0 == HEAP_FILENAME@);
        }
        if m.0 == HEAP_FILENAME@ {
            assert(ms[n].0 == HEAP_FILENAME@);
        }
        if has_member(ms, METADATA_FILENAME@) && m.0 != METADATA_FILENAME@ {
            let j = choose|j: int| 0 <= j < ms.len() && #[trigger] ms[j].0 == METADATA_FILENAME@;
            assert(j != n);
            assert(d[j].0 == METADATA_FILENAME@);
        }
        if m.0 == METADATA_FILENAME@ {
            reveal_strlit("meta.json");
            reveal_strlit("heap.bin");
            assert(METADATA_FILENAME@ != HEAP_FILENAME@) by {
                assert(METADATA_FILENAME@[0] != HEAP_FILENAME@[0]);
            }
            assert(last_metadata_at(ms, n));
        } else {
            match st.version {
                Some(v) => {
                    let i = choose|i: int|
                        #[trigger] last_metadata_at(d, i) && metadata_version_is(d[i].1, v);
                    assert forall|j: int| i < j < ms.len() implies #[trigger] ms[j].0 != METADATA_FILENAME@ by {
                        if j < n {
                            assert(d[j].0 != METADATA_FILENAME@);
                        }
                    }
                    assert(last_metadata_at(ms, i));
                },
                None => {},
            }
        }
    }
}

/// A valid archive names the supported format: the tar layer read it
/// without error, it holds a heap, and the last `meta.json` in it is
/// metadata whose format version is [`FORMAT_VERSION`].
pub proof fn law_valid_archive_has_supported_format(data: Seq<u8>)
    requires
        check_outcome(data) == CheckOutcome::Valid,
    ensures
        !tar_read(data).1,
        has_member(tar_read(data).0, HEAP_FILENAME@),
        exists|i: int|
            #[trigger] last_metadata_at(tar_read(data).0, i) && metadata_version_is(
                tar_read(data).0[i].1,
                FORMAT_VERSION@,
            ),
{
    lemma_check_members_facts(tar_read(data).0);
}

/// An archive whose last `meta.json` names another format is refused as
/// an invalid format naming that version, where the tar layer read it, every
/// `meta.json` is metadata, and a heap is present.
pub proof fn law_unsupported_format_refused(data: Seq<u8>, i: int)
    requires
        !tar_read(data).1,
        check_members(tar_read(data).0) is Some,
        has_member(tar_read(data).0, HEAP_FILENAME@),
        last_metadata_at(tar_read(data).0, i),
        metadata_of_text(tar_read(data).0[i].1) is Some,
        metadata_of_text(tar_read(data).0[i].1)->0.format_version != FORMAT_VERSION@,
    ensures
        check_outcome(data) == CheckOutcome::InvalidFormat(metadata_of_text(tar_read(data).0[i].1)->0.format_version),
{
    let ms = tar_read(data).0;
    lemma_check_members_facts(ms);
    assert(has_member(ms, METADATA_FILENAME@));
    let st = check_members(ms)->0;
    let k = choose|k: int|
        #[trigger] last_metadata_at(ms, k) && metadata_version_is(ms[k].1, st.version->0);
    if k < i {
        assert(ms[i].0 != METADATA_FILENAME@);
    }
    if i < k {
        assert(ms[k].0 != METADATA_FILENAME@);
    }
}

/// Checks an archive without keeping its contents: the tar layer reads it,
/// metadata and heap are present, the metadata is readable and names a
/// supported format.
pub fn validate_sliver(archive_data: &[u8]) -> (r: SliverResult<()>)
    ensures
        check_result(r) == check_outcome(archive_data@),
{
    let (members, failed) = tar_read_members(archive_data);
    let ghost ms = members_view(members@);
    let mut has_metadata = false;
    let mut has_heap = false;
    let mut version: Option<String> = None;
    let mut i: usize = 0;
    assert(ms.subrange(0, 0) =~= Seq::<(Seq<char>, Seq<u8>)>::empty());
    while i < members.len()
        invariant
            i <= members@.len(),
            ms == members_view(members@),
            ms == tar_read(archive_data@).0,
            check_members(ms.subrange(0, i as int)) == Some(
                CheckState {
                    has_metadata,
                    has_heap,
                    version: match version {
                        Some(v) => Some(v@),
                        None => None,
                    },
                },
            ),
            has_metadata == (version is Some),
        decreases members@.len() - i,
    {
        let ghost next = ms.subrange(0, i + 1);
        assert(next.drop_last() =~= ms.subrange(0, i as int));
        assert(next.last() == (members@[i as int].0@, members@[i as int].1@));
        let path = members[i].0.as_str();
        if str_eq(path, METADATA_FILENAME) {
            match SliverMetadata::from_json(members[i].1.as_slice()) {
                Ok(m) => {
                    version = Some(m.format_version);
                    has_metadata = true;
                },
                Err(e) => {
                    proof {
                        lemma_check_stops(ms, i + 1);
                    }
                    return Err(e);
                },
            }
        } else if str_eq(path, HEAP_FILENAME) {
            has_heap = true;
        }
        i = i + 1;
    }
    assert(ms.subrange(0, members@.len() as int) =~= ms);
    if failed {
        return Err(SliverError::Io(String::from_str("the tar archive could not be read")));
    }
    if !has_metadata {
        return Err(SliverError::MissingMetadata { filename: String::from_str(METADATA_FILENAME) });
    }
    if !has_heap {
        return Err(SliverError::MissingHeap { filename: String::from_str(HEAP_FILENAME) });
    }
    match version {
        Some(v) => {
            if !SliverFormat::is_supported_version(v.as_str()) {
                return Err(SliverError::InvalidFormat { version: v });
            }
        },
        None => {},
    }
    Ok(())
}

} // verus!
