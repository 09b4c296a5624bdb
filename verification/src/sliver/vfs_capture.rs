//! Files gathered from a VFS for a snapshot.

use vstd::prelude::*;
use crate::text::str_eq;
use crate::vfs::types::{VfsPath, VfsFile, FileView};

verus! {

/// The views of captured files: path and file.
pub open spec fn captured_view(v: Seq<(String, VfsFile)>) -> Seq<(Seq<char>, FileView)> {
    v.map_values(|e: (String, VfsFile)| (e.0@, e.1@))
}

/// Whether no path occurs twice.
pub open spec fn paths_distinct(v: Seq<(Seq<char>, FileView)>) -> bool {
    forall|i: int, j: int| 0 <= i < j < v.len() ==> v[i].0 != v[j].0
}

/// Whether `path` occurs.
pub open spec fn has_key(v: Seq<(Seq<char>, FileView)>, path: Seq<char>) -> bool {
    exists|i: int| 0 <= i < v.len() && v[i].0 == path
}

/// The files after storing `file` at `path`: the file at an existing path is
/// replaced in place, otherwise the pair is appended.
pub open spec fn store_file(v: Seq<(Seq<char>, FileView)>, path: Seq<char>, file: FileView) -> Seq<
    (Seq<char>, FileView),
> {
    if has_key(v, path) {
        let i = choose|i: int| 0 <= i < v.len() && v[i].0 == path;
        v.update(i, (path, file))
    } else {
        v.push((path, file))
    }
}

/// Files captured from a VFS, with a count of additions and of bytes added.
pub struct VfsCapture {
    files: Vec<(String, VfsFile)>,
    file_count: usize,
    total_bytes: usize,
}

impl VfsCapture {
    /// The captured files, path and file, in order of first capture.
    pub closed spec fn entries(&self) -> Seq<(Seq<char>, FileView)> {
        captured_view(self.files@)
    }

    /// How many files were added, counting replacements.
    pub closed spec fn count(&self) -> nat {
        self.file_count as nat
    }

    /// How many bytes were added, counting replaced files too.
    pub closed spec fn bytes(&self) -> nat {
        self.total_bytes as nat
    }

    /// Whether no path occurs twice.
    pub closed spec fn wf(&self) -> bool {
        paths_distinct(self.entries())
    }

    /// An empty capture.
    pub fn new() -> (r: VfsCapture)
        ensures
            r.wf(),
            r.entries().len() == 0,
            r.count() == 0,
            r.bytes() == 0,
    {
        let r = VfsCapture { files: Vec::new(), file_count: 0, total_bytes: 0 };
        assert(r.entries() =~= Seq::<(Seq<char>, FileView)>::empty());
        r
    }

    /// Stores `file` at `path`, replacing a file already captured there;
    /// the counts of files and bytes grow either way.
    pub fn add_file(&mut self, path: VfsPath, file: VfsFile)
        requires
            old(self).wf(),
            old(self).count() < usize::MAX,
            old(self).bytes() + file.content@.len() <= usize::MAX,
        ensures
            final(self).wf(),
            final(self).entries() == store_file(old(self).entries(), path@, file@),
            final(self).count() == old(self).count() + 1,
            final(self).bytes() == old(self).bytes() + file.content@.len(),
    {
        self.total_bytes = self.total_bytes + file.content.len();
        self.file_count = self.file_count + 1;
        let key = path.to_string();
        let ghost v = captured_view(self.files@);
        let ghost fv = file@;
        let mut i: usize = 0;
        while i < self.files.len()
            invariant
                i <= self.files@.len(),
                v == captured_view(self.files@),
                v == old(self).entries(),
                paths_distinct(v),
                key@ == path@,
                fv == file@,
                self.file_count == old(self).file_count + 1,
                self.total_bytes == old(self).total_bytes + file.content@.len(),
                forall|j: int| 0 <= j < i ==> v[j].0 != key@,
            decreases self.files@.len() - i,
        {
            if str_eq(self.files[i].0.as_str(), key.as_str()) {
                proof {
                    assert(v[i as int].0 == path@);
                    let k = choose|k: int| 0 <= k < v.len() && v[k].0 == path@;
                    assert(k == i as int) by {
                        if k != i as int {
                            assert(v[k].0 == v[i as int].0);
                        }
                    }
                }
                self.files.set(i, (key, file));
                assert(captured_view(self.files@) =~= v.update(i as int, (path@, fv)));
                return;
            }
            i = i + 1;
        }
        assert(!has_key(v, path@));
        self.files.push((key, file));
        assert(captured_view(self.files@) =~= v.push((path@, fv)));
    }

    /// The captured files.
    pub fn files(&self) -> (r: &Vec<(String, VfsFile)>)
        ensures
            captured_view(r@) == self.entries(),
    {
        &self.files
    }

    /// How many files were added, counting replacements.
    pub fn file_count(&self) -> (r: usize)
        ensures
            r == self.count(),
    {
        self.file_count
    }

    /// How many bytes were added, counting replaced files too.
    pub fn total_bytes(&self) -> (r: usize)
        ensures
            r == self.bytes(),
    {
        self.total_bytes
    }

    /// The captured files as a list of path and file.
    pub fn into_vec(self) -> (r: Vec<(String, VfsFile)>)
        ensures
            captured_view(r@) == self.entries(),
    {
        self.files
    }

    /// Whether a file is captured at `path`.
    pub fn has_path(&self, path: &str) -> (r: bool)
        ensures
            r == has_key(self.entries(), path@),
    {
        let ghost v = self.entries();
        let mut i: usize = 0;
        while i < self.files.len()
            invariant
                i <= self.files@.len(),
                v == captured_view(self.files@),
                forall|j: int| 0 <= j < i ==> v[j].0 != path@,
            decreases self.files@.len() - i,
        {
            if str_eq(self.files[i].0.as_str(), path) {
                assert(v[i as int].0 == path@);
                return true;
            }
            i = i + 1;
        }
        false
    }
}

impl Default for VfsCapture {
    fn default() -> (r: Self)
        ensures
            r.wf(),
            r.entries().len() == 0,
            r.count() == 0,
            r.bytes() == 0,
    {
        VfsCapture::new()
    }
}

} // verus!
