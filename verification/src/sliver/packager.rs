//! Slivers made from a directory of files, without a running app.

use vstd::prelude::*;
use vstd::string::StringExecFns;
use crate::text::{str_chars, str_eq, chars_start_with, seq_starts_with};
use crate::vfs::types::{VfsPath, VfsResult, path_accepted, normalize_path};
use crate::sliver::metadata::{SliverMetadata, MetadataView, set_pair};
use crate::sliver::json::utf8_bytes;

verus! {

/// Magic bytes that open the heap member of a sliver made from a directory.
pub const COLD_SLIVER_MAGIC: &'static str = "NANO-DIR-v1\0";

/// The heap member of a sliver made from a directory: the magic bytes, then
/// the entrypoint path.
pub open spec fn cold_marker(entrypoint: Seq<char>) -> Seq<u8> {
    vstd::utf8::encode_utf8(COLD_SLIVER_MAGIC@) + vstd::utf8::encode_utf8(entrypoint)
}

/// The heap member of a sliver made from a directory, which holds no heap
/// snapshot: the magic bytes `NANO-DIR-v1\0`, then the entrypoint path.
pub fn create_cold_sliver_marker(entrypoint: &str) -> (r: Vec<u8>)
    ensures
        r@ == cold_marker(entrypoint@),
{
    let mut data = utf8_bytes(COLD_SLIVER_MAGIC);
    let tail = utf8_bytes(entrypoint);
    let mut i: usize = 0;
    let ghost head = data@;
    while i < tail.len()
        invariant
            i <= tail@.len(),
            data@ == head + tail@.subrange(0, i as int),
        decreases tail@.len() - i,
    {
        data.push(tail[i]);
        i = i + 1;
        assert(data@ =~= head + tail@.subrange(0, i as int));
    }
    assert(tail@.subrange(0, tail@.len() as int) =~= tail@);
    data
}

/// Entrypoint candidates of a directory, in order of preference.
pub open spec fn directory_candidates() -> Seq<Seq<char>> {
    seq!["index.js"@, "index.mjs"@, "main.js"@, "worker.js"@, "index.html"@]
}

/// The entrypoint of a directory given which candidates exist in it: the
/// first existing candidate, else `index.html`.
pub open spec fn directory_entrypoint_of(existing: Seq<Seq<char>>) -> Seq<char> {
    let c = directory_candidates();
    if existing.contains(c[0]) {
        c[0]
    } else if existing.contains(c[1]) {
        c[1]
    } else if existing.contains(c[2]) {
        c[2]
    } else if existing.contains(c[3]) {
        c[3]
    } else {
        c[4]
    }
}

/// Whether a list of strings holds `s`.
fn holds(list: &Vec<String>, s: &str) -> (r: bool)
    ensures
        r == list@.map_values(|x: String| x@).contains(s@),
{
    let ghost v = list@.map_values(|x: String| x@);
    let mut i: usize = 0;
    while i < list.len()
        invariant
            i <= list@.len(),
            v == list@.map_values(|x: String| x@),
            forall|j: int| 0 <= j < i ==> v[j] != s@,
        decreases list@.len() - i,
    {
        if str_eq(list[i].as_str(), s) {
            assert(v[i as int] == s@);
            return true;
        }
        i = i + 1;
    }
    false
}

/// The candidates a caller checks for existence, in order of preference.
pub fn directory_entrypoint_candidates() -> (r: Vec<&'static str>)
    ensures
        r@.map_values(|s: &'static str| s@) == directory_candidates(),
{
    let r = vec!["index.js", "index.mjs", "main.js", "worker.js", "index.html"];
    assert(r@.map_values(|s: &'static str| s@) =~= directory_candidates());
    r
}

/// The entrypoint of a directory, given the candidates that exist in it.
pub fn directory_entrypoint(existing: &Vec<String>) -> (r: String)
    ensures
        r@ == directory_entrypoint_of(existing@.map_values(|x: String| x@)),
{
    if holds(existing, "index.js") {
        String::from_str("index.js")
    } else if holds(existing, "index.mjs") {
        String::from_str("index.mjs")
    } else if holds(existing, "main.js") {
        String::from_str("main.js")
    } else if holds(existing, "worker.js") {
        String::from_str("worker.js")
    } else {
        String::from_str("index.html")
    }
}

/// Whether a file of the directory is left out of the sliver: hidden files
/// and other slivers.
pub open spec fn skipped_file(file_name: Seq<char>) -> bool {
    (file_name.len() > 0 && file_name[0] == '.') || (file_name.len() >= 7 && file_name.subrange(
        file_name.len() - 7,
        file_name.len() as int,
    ) == ".sliver"@)
}

/// Whether a file of the directory is left out of the sliver.
pub fn is_skipped_file(file_name: &str) -> (r: bool)
    ensures
        r == skipped_file(file_name@),
{
    let chars = str_chars(file_name);
    if chars.len() > 0 && chars[0] == '.' {
        return true;
    }
    let suffix = str_chars(".sliver");
    if chars.len() < suffix.len() {
        proof {
            reveal_strlit(".sliver");
        }
        return false;
    }
    let start = chars.len() - suffix.len();
    let tail = crate::text::chars_slice(chars.as_slice(), start, chars.len());
    let r = crate::text::chars_eq(tail.as_slice(), suffix.as_slice());
    proof {
        reveal_strlit(".sliver");
    }
    r
}

/// The VFS path of a directory file, from its path relative to the
/// directory: `/` and the relative path, validated.
pub fn directory_vfs_path(relative: &str) -> (r: VfsResult<VfsPath>)
    ensures
        match r {
            Ok(p) => path_accepted_seq(seq!['/'] + relative@) && Some(p@) == normalize_path(seq!['/']
                + relative@),
            Err(_) => !path_accepted_seq(seq!['/'] + relative@),
        },
{
    let mut s = String::from_str("/");
    s.append(relative);
    proof {
        reveal_strlit("/");
        assert("/"@ =~= seq!['/']);
        assert(s@ =~= seq!['/'] + relative@);
    }
    VfsPath::new(s.as_str())
}

/// Whether `VfsPath::new` accepts the characters `s`.
pub open spec fn path_accepted_seq(s: Seq<char>) -> bool {
    crate::vfs::types::seq_accepted(s)
}

/// The metadata of a sliver made from a directory: named `name`, with a
/// description naming the source, entrypoint and tag, and custom pairs
/// `entrypoint`, `source_dir`, `tag` and `sliver_type` = `directory`.
pub fn directory_sliver_metadata(
    hostname: &str,
    nano_version: &str,
    name: &str,
    source_dir: &str,
    entrypoint: &str,
    tag: &str,
) -> (r: SliverMetadata)
    ensures
        r@.hostname == hostname@,
        r@.nano_version == nano_version@,
        r@.name == Some(name@),
        r@.description == Some(
            "Created from directory: "@ + source_dir@ + " | Entrypoint: "@ + entrypoint@
                + " | Tag: "@ + tag@,
        ),
        r@.custom == set_pair(
            set_pair(
                set_pair(
                    set_pair(Seq::empty(), "entrypoint"@, entrypoint@),
                    "source_dir"@,
                    source_dir@,
                ),
                "tag"@,
                tag@,
            ),
            "sliver_type"@,
            "directory"@,
        ),
{
    let mut m = SliverMetadata::new(hostname, nano_version);
    assert(m@.custom =~= Seq::<(Seq<char>, Seq<char>)>::empty());
    m.name = Some(name.to_owned());
    let mut d = String::from_str("Created from directory: ");
    d.append(source_dir);
    d.append(" | Entrypoint: ");
    d.append(entrypoint);
    d.append(" | Tag: ");
    d.append(tag);
    m.description = Some(d);
    m.set_custom(String::from_str("entrypoint"), entrypoint.to_owned());
    m.set_custom(String::from_str("source_dir"), source_dir.to_owned());
    m.set_custom(String::from_str("tag"), tag.to_owned());
    m.set_custom(String::from_str("sliver_type"), String::from_str("directory"));
    m
}

} // verus!
