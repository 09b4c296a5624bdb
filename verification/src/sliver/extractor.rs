//! Choosing the entrypoint of a sliver whose files are extracted to disk.

use vstd::prelude::*;
use vstd::string::StringExecFns;
use crate::text::{str_chars, str_eq, chars_slice, chars_eq};
use crate::vfs::types::{VfsPath, VfsFile};
use crate::sliver::error::{SliverError, SliverResult};

verus! {

/// Entrypoint candidates of an extracted sliver, in order of preference.
pub open spec fn extract_candidates() -> Seq<Seq<char>> {
    seq!["index.js"@, "app.js"@, "main.js"@, "server.js"@]
}

/// The paths of a list of VFS files.
pub open spec fn entry_paths(es: Seq<(VfsPath, VfsFile)>) -> Seq<Seq<char>> {
    es.map_values(|e: (VfsPath, VfsFile)| e.0@)
}

/// The preferred entrypoint: the first candidate among the paths, else
/// `index.js`.
pub open spec fn detected_entrypoint(paths: Seq<Seq<char>>) -> Seq<char> {
    let c = extract_candidates();
    if paths.contains(c[0]) {
        c[0]
    } else if paths.contains(c[1]) {
        c[1]
    } else if paths.contains(c[2]) {
        c[2]
    } else if paths.contains(c[3]) {
        c[3]
    } else {
        c[0]
    }
}

/// Whether a path ends in `.js`.
pub open spec fn is_js(p: Seq<char>) -> bool {
    p.len() >= 3 && p.subrange(p.len() - 3, p.len() as int) == ".js"@
}

/// Whether `i` is the first index of a `.js` path.
pub open spec fn first_js_at(paths: Seq<Seq<char>>, i: int) -> bool {
    0 <= i < paths.len() && is_js(paths[i]) && forall|j: int| 0 <= j < i ==> !is_js(paths[j])
}

/// Extracts sliver files and picks the entrypoint to run.
pub struct SliverExtractor;

impl SliverExtractor {
    /// Whether one of the paths is `p`.
    fn has_path(vfs_entries: &[(VfsPath, VfsFile)], p: &str) -> (r: bool)
        ensures
            r == entry_paths(vfs_entries@).contains(p@),
    {
        let ghost paths = entry_paths(vfs_entries@);
        let mut i: usize = 0;
        while i < vfs_entries.len()
            invariant
                i <= vfs_entries@.len(),
                paths == entry_paths(vfs_entries@),
                forall|j: int| 0 <= j < i ==> paths[j] != p@,
            decreases vfs_entries@.len() - i,
        {
            if str_eq(vfs_entries[i].0.as_str(), p) {
                assert(paths[i as int] == p@);
                return true;
            }
            i = i + 1;
        }
        false
    }

    /// The preferred entrypoint among the files: `index.js`, `app.js`,
    /// `main.js`, `server.js`, in that order; `index.js` when none occurs.
    pub fn detect_entrypoint(vfs_entries: &[(VfsPath, VfsFile)]) -> (r: String)
        ensures
            r@ == detected_entrypoint(entry_paths(vfs_entries@)),
    {
        if SliverExtractor::has_path(vfs_entries, "index.js") {
            String::from_str("index.js")
        } else if SliverExtractor::has_path(vfs_entries, "app.js") {
            String::from_str("app.js")
        } else if SliverExtractor::has_path(vfs_entries, "main.js") {
            String::from_str("main.js")
        } else if SliverExtractor::has_path(vfs_entries, "server.js") {
            String::from_str("server.js")
        } else {
            String::from_str("index.js")
        }
    }

    /// Whether a path ends in `.js`.
    fn ends_with_js(p: &str) -> (r: bool)
        ensures
            r == is_js(p@),
    {
        let chars = str_chars(p);
        let suffix = str_chars(".js");
        proof {
            reveal_strlit(".js");
        }
        if chars.len() < 3 {
            return false;
        }
        let tail = chars_slice(chars.as_slice(), chars.len() - 3, chars.len());
        chars_eq(tail.as_slice(), suffix.as_slice())
    }

    /// The entrypoint to run once the files are written out: the preferred
    /// one where it exists on disk (`detected_exists`), else the first file
    /// whose path ends in `.js`; with neither, an error naming the preferred
    /// entrypoint.
    pub fn choose_entrypoint(vfs_entries: &[(VfsPath, VfsFile)], detected_exists: bool) -> (r: SliverResult<String>)
        ensures
            ({
                let paths = entry_paths(vfs_entries@);
                let d = detected_entrypoint(paths);
                if detected_exists {
                    r matches Ok(s) && s@ == d
                } else if exists|i: int| first_js_at(paths, i) {
                    r matches Ok(s) && s@ == paths[choose|i: int| first_js_at(paths, i)]
                } else {
                    r matches Err(SliverError::VfsRestore { path, .. }) && path@ == d
                }
            }),
    {
        let detected = SliverExtractor::detect_entrypoint(vfs_entries);
        if detected_exists {
            return Ok(detected);
        }
        let ghost paths = entry_paths(vfs_entries@);
        let mut i: usize = 0;
        while i < vfs_entries.len()
            invariant
                i <= vfs_entries@.len(),
                paths == entry_paths(vfs_entries@),
                !detected_exists,
                detected@ == detected_entrypoint(paths),
                forall|j: int| 0 <= j < i ==> !is_js(paths[j]),
            decreases vfs_entries@.len() - i,
        {
            if SliverExtractor::ends_with_js(vfs_entries[i].0.as_str()) {
                proof {
                    assert(paths[i as int] == vfs_entries@[i as int].0@);
                    assert(first_js_at(paths, i as int));
                    let k = choose|k: int| first_js_at(paths, k);
                    assert(k == i as int) by {
                        if k < i as int {
                            assert(!is_js(paths[k]));
                        }
                        if k > i as int {
                            assert(is_js(paths[i as int]));
                        }
                    }
                }
                let s = vfs_entries[i].0.to_string();
                assert(s@ == paths[i as int]);
                return Ok(s);
            }
            i = i + 1;
        }
        assert forall|k: int| !first_js_at(paths, k) by {
            if 0 <= k < paths.len() {
                assert(!is_js(paths[k]));
            }
        }
        Err(SliverError::VfsRestore {
            path: detected,
            reason: String::from_str("Entrypoint file not found in VFS entries"),
        })
    }
}

} // verus!
