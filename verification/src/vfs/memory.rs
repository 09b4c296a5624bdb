//! In-memory VFS backend: files kept in a concurrent map, with counters of
//! files and bytes that enforce the resource limits.

use vstd::prelude::*;
use vstd::string::StringExecFns;
use dashmap::DashMap;
use crate::text::{chars_slice, chars_start_with, push_chars, str_chars, string_from_chars};
use crate::vfs::store::{stored, store_new, store_get, store_contains, store_insert, store_remove, store_len, store_clear, store_entries, store_keys, lists_entries, lists_keys};
use crate::vfs::types::{VfsPath, VfsFile, FileView, VfsError, VfsResult, ResourceLimits, MAX_PATH_LENGTH, normalize_path, now_nanos, seq_accepted};
use crate::vfs::security::quota_error;

verus! {

/// The files of a store, each by its mathematical value.
pub open spec fn file_views(m: Map<Seq<char>, VfsFile>) -> Map<Seq<char>, FileView> {
    m.map_values(|f: VfsFile| f@)
}

/// The sum of the content lengths of a finite map of files.
pub open spec fn sum_sizes(m: Map<Seq<char>, FileView>) -> nat
    decreases m.dom().len(),
{
    if m.dom().finite() && m.dom().len() > 0 {
        let k = m.dom().choose();
        m[k].content.len() + sum_sizes(m.remove(k))
    } else {
        0
    }
}

/// Removing any one key takes its length off the sum.
pub proof fn lemma_sum_remove(m: Map<Seq<char>, FileView>, k: Seq<char>)
    requires
        m.dom().finite(),
        m.contains_key(k),
    ensures
        sum_sizes(m) == m[k].content.len() + sum_sizes(m.remove(k)),
    decreases m.dom().len(),
{
    let c = m.dom().choose();
    assert(m.dom().contains(c));
    if c != k {
        let mc = m.remove(c);
        let mk = m.remove(k);
        assert(mc.dom() =~= m.dom().remove(c));
        assert(mk.dom() =~= m.dom().remove(k));
        lemma_sum_remove(mc, k);
        lemma_sum_remove(mk, c);
        assert(mc.remove(k) =~= mk.remove(c));
    }
}

/// Inserting into a finite map changes the sum by the new length minus the
/// length it replaces.
pub proof fn lemma_sum_insert(m: Map<Seq<char>, FileView>, k: Seq<char>, v: FileView)
    requires
        m.dom().finite(),
    ensures
        m.insert(k, v).dom().finite(),
        m.contains_key(k) ==> sum_sizes(m.insert(k, v)) + m[k].content.len() == sum_sizes(m)
            + v.content.len(),
        !m.contains_key(k) ==> sum_sizes(m.insert(k, v)) == sum_sizes(m) + v.content.len(),
{
    let mi = m.insert(k, v);
    assert(mi.dom() =~= m.dom().insert(k));
    lemma_sum_remove(mi, k);
    if m.contains_key(k) {
        lemma_sum_remove(m, k);
        assert(mi.remove(k) =~= m.remove(k));
    } else {
        assert(mi.remove(k) =~= m);
    }
}

/// The sum over the empty map is zero.
pub proof fn lemma_sum_empty(m: Map<Seq<char>, FileView>)
    requires
        m.dom() =~= Set::empty(),
    ensures
        sum_sizes(m) == 0,
{
    assert(m.dom().finite());
    assert(m.dom().len() == 0);
}

/// The in-memory backend.
pub struct MemoryBackend {
    storage: DashMap<String, VfsFile>,
    limits: ResourceLimits,
    total_bytes: usize,
    file_count: usize,
}

/// The prefix under which [`MemoryBackend::list_dir`] looks for children of
/// `p`: `p` itself when it ends with `/`, else `p` followed by `/`.
pub open spec fn dir_prefix(p: Seq<char>) -> Seq<char> {
    if p.len() > 0 && p.last() == '/' {
        p
    } else {
        p.push('/')
    }
}

/// The length of the leading run of characters other than `/`.
pub open spec fn seg_len(s: Seq<char>) -> nat
    decreases s.len(),
{
    if s.len() == 0 || s[0] == '/' {
        0
    } else {
        1 + seg_len(s.drop_first())
    }
}

/// The name of the child of the directory with prefix `prefix` that lies on
/// the way to `key`: the part of `key` after `prefix` up to the next `/`.
pub open spec fn child_name(key: Seq<char>, prefix: Seq<char>) -> Option<Seq<char>> {
    if prefix.len() <= key.len() && key.subrange(0, prefix.len() as int) == prefix && key.len()
        > prefix.len() {
        let rem = key.subrange(prefix.len() as int, key.len() as int);
        Some(rem.subrange(0, seg_len(rem) as int))
    } else {
        None
    }
}

/// The length of a run of non-`/` characters, counted up to index `i`.
proof fn lemma_seg_len(s: Seq<char>, i: int)
    requires
        0 <= i <= s.len(),
        forall|t: int| 0 <= t < i ==> s[t] != '/',
    ensures
        seg_len(s) == i + seg_len(s.subrange(i, s.len() as int)),
    decreases i,
{
    if i == 0 {
        assert(s.subrange(0, s.len() as int) =~= s);
    } else {
        let d = s.drop_first();
        lemma_seg_len(d, i - 1);
        assert(d.subrange(i - 1, d.len() as int) =~= s.subrange(i, s.len() as int));
    }
}

/// The child name on the way from the directory prefix `pre` to `key`.
fn child_of(key: &[char], pre: &[char]) -> (r: Option<Vec<char>>)
    ensures
        match r {
            Some(c) => child_name(key@, pre@) == Some(c@),
            None => child_name(key@, pre@) is None,
        },
{
    if !chars_start_with(key, pre) || key.len() <= pre.len() {
        return None;
    }
    let start = pre.len();
    let mut j = start;
    while j < key.len() && key[j] != '/'
        invariant
            start <= j <= key@.len(),
            forall|t: int| start <= t < j ==> key@[t] != '/',
        decreases key@.len() - j,
    {
        j = j + 1;
    }
    let ghost rem = key@.subrange(start as int, key@.len() as int);
    proof {
        lemma_seg_len(rem, j - start);
        assert(rem.subrange(j - start, rem.len() as int).len() == 0 || rem.subrange(
            j - start,
            rem.len() as int,
        )[0] == '/');
    }
    let c = chars_slice(key, start, j);
    assert(c@ =~= rem.subrange(0, seg_len(rem) as int));
    Some(c)
}

/// Whether `p` is the normalized form of the child `c` joined to `pre`.
pub open spec fn joins_child(p: Seq<char>, pre: Seq<char>, c: Seq<char>) -> bool {
    seq_accepted(pre + c) && normalize_path(pre + c) == Some(p)
}

/// Whether some element of `names` has the characters `c`.
pub open spec fn names_hold(names: Seq<Vec<char>>, c: Seq<char>) -> bool {
    exists|t: int| 0 <= t < names.len() && #[trigger] names[t]@ == c
}

/// Whether one of the first `n` keys yields the child name `c` under `pre`.
pub open spec fn keys_yield(keys: Seq<String>, n: int, pre: Seq<char>, c: Seq<char>) -> bool {
    exists|u: int| 0 <= u < n && #[trigger] child_name(keys[u]@, pre) == Some(c)
}

/// Whether `names` holds `c`.
fn holds_name(names: &Vec<Vec<char>>, c: &Vec<char>) -> (r: bool)
    ensures
        r == exists|i: int| 0 <= i < names@.len() && #[trigger] names@[i]@ == c@,
{
    let mut i: usize = 0;
    while i < names.len()
        invariant
            i <= names@.len(),
            forall|t: int| 0 <= t < i ==> #[trigger] names@[t]@ != c@,
        decreases names@.len() - i,
    {
        if crate::text::chars_eq(names[i].as_slice(), c.as_slice()) {
            return true;
        }
        i = i + 1;
    }
    false
}

/// The map that results from storing `entries` in order into an empty map.
pub open spec fn restored(entries: Seq<(VfsPath, VfsFile)>) -> Map<Seq<char>, FileView>
    decreases entries.len(),
{
    if entries.len() == 0 {
        Map::empty()
    } else {
        restored(entries.drop_last()).insert(entries.last().0@, entries.last().1@)
    }
}

/// The sum of the content lengths of `entries`.
pub open spec fn entries_bytes(entries: Seq<(VfsPath, VfsFile)>) -> nat
    decreases entries.len(),
{
    if entries.len() == 0 {
        0
    } else {
        entries_bytes(entries.drop_last()) + entries.last().1.content@.len()
    }
}

/// The bytes of a prefix of entries never exceed those of all entries.
proof fn lemma_entries_bytes_prefix(e: Seq<(VfsPath, VfsFile)>, n: int)
    requires
        0 <= n <= e.len(),
    ensures
        entries_bytes(e.subrange(0, n)) <= entries_bytes(e),
    decreases e.len() - n,
{
    if n < e.len() {
        lemma_entries_bytes_prefix(e, n + 1);
        assert(e.subrange(0, n + 1).drop_last() =~= e.subrange(0, n));
    } else {
        assert(e.subrange(0, n) =~= e);
    }
}

/// Whether snapshot element `e` comes from entry `t` of `entries`.
pub open spec fn snap_elem(entries: Seq<(String, VfsFile)>, m: Map<Seq<char>, VfsFile>, t: int, e: (VfsPath, VfsFile)) -> bool {
    let k = entries[t].0@;
    &&& m.contains_key(k)
    &&& seq_accepted(k)
    &&& Some(e.0@) == normalize_path(k)
    &&& e.1@ == m[k]@
}

/// A key is restored exactly when some entry names it.
proof fn lemma_restored_keys(e: Seq<(VfsPath, VfsFile)>, k: Seq<char>)
    ensures
        restored(e).contains_key(k) <==> exists|i: int| 0 <= i < e.len() && #[trigger] e[i].0@ == k,
    decreases e.len(),
{
    if e.len() > 0 {
        let d = e.drop_last();
        lemma_restored_keys(d, k);
        if exists|i: int| 0 <= i < d.len() && #[trigger] d[i].0@ == k {
            let i = choose|i: int| 0 <= i < d.len() && #[trigger] d[i].0@ == k;
            assert(e[i].0@ == k);
        }
        if exists|i: int| 0 <= i < e.len() && #[trigger] e[i].0@ == k {
            let i = choose|i: int| 0 <= i < e.len() && #[trigger] e[i].0@ == k;
            if i < e.len() - 1 {
                assert(d[i].0@ == k);
            }
        }
    }
}

/// Whether no two entries share a path.
pub open spec fn distinct_paths(e: Seq<(VfsPath, VfsFile)>) -> bool {
    forall|i: int, j: int| 0 <= i < j < e.len() ==> #[trigger] e[i].0@ != #[trigger] e[j].0@
}

/// Restoring entries with distinct paths and recorded sizes equal to their
/// content lengths gives one file per entry and the sum of their lengths.
proof fn lemma_restored_usage(e: Seq<(VfsPath, VfsFile)>)
    requires
        distinct_paths(e),
        forall|i: int| 0 <= i < e.len() ==> #[trigger] e[i].1.size == e[i].1.content@.len(),
    ensures
        restored(e).dom().finite(),
        restored(e).len() == e.len(),
        sum_sizes(restored(e)) == entries_bytes(e),
        forall|k: Seq<char>|
            #[trigger] restored(e).contains_key(k) ==> restored(e)[k].size == restored(e)[k].content.len(),
    decreases e.len(),
{
    lemma_restored_finite(e);
    if e.len() == 0 {
        assert(restored(e).dom() =~= Set::empty());
        lemma_sum_empty(restored(e));
    } else {
        let d = e.drop_last();
        let l = e.last();
        assert(distinct_paths(d)) by {
            assert forall|i: int, j: int| 0 <= i < j < d.len() implies #[trigger] d[i].0@ != #[trigger] d[j].0@ by {
                assert(e[i].0@ != e[j].0@);
            }
        }
        assert forall|i: int| 0 <= i < d.len() implies #[trigger] d[i].1.size == d[i].1.content@.len() by {
            assert(e[i].1.size == e[i].1.content@.len());
        }
        lemma_restored_usage(d);
        lemma_restored_keys(d, l.0@);
        if restored(d).contains_key(l.0@) {
            let i = choose|i: int| 0 <= i < d.len() && #[trigger] d[i].0@ == l.0@;
            assert(e[i].0@ != e[e.len() - 1].0@);
        }
        lemma_sum_insert(restored(d), l.0@, l.1@);
        assert(restored(e).dom() =~= restored(d).dom().insert(l.0@));
        assert(e[e.len() - 1].1.size == e[e.len() - 1].1.content@.len());
    }
}

/// A list that names each key of `m` once, with its value, restores to `m`.
proof fn lemma_restored_eq(e: Seq<(VfsPath, VfsFile)>, m: Map<Seq<char>, FileView>)
    requires
        distinct_paths(e),
        forall|i: int| 0 <= i < e.len() ==> m.contains_key(#[trigger] e[i].0@) && m[e[i].0@] == e[i].1@,
        forall|k: Seq<char>| m.contains_key(k) ==> exists|i: int| 0 <= i < e.len() && #[trigger] e[i].0@ == k,
    ensures
        restored(e) == m,
    decreases e.len(),
{
    if e.len() == 0 {
        assert(restored(e) =~= m);
    } else {
        let d = e.drop_last();
        let l = e.last();
        let m2 = m.remove(l.0@);
        assert(distinct_paths(d)) by {
            assert forall|i: int, j: int| 0 <= i < j < d.len() implies #[trigger] d[i].0@ != #[trigger] d[j].0@ by {
                assert(e[i].0@ != e[j].0@);
            }
        }
        assert forall|i: int| 0 <= i < d.len() implies m2.contains_key(#[trigger] d[i].0@) && m2[d[i].0@] == d[i].1@ by {
            assert(e[i].0@ != e[e.len() - 1].0@);
            assert(m.contains_key(e[i].0@));
        }
        assert forall|k: Seq<char>| m2.contains_key(k) implies exists|i: int| 0 <= i < d.len() && #[trigger] d[i].0@ == k by {
            let i = choose|i: int| 0 <= i < e.len() && #[trigger] e[i].0@ == k;
            assert(i != e.len() - 1);
            assert(d[i].0@ == k);
        }
        lemma_restored_eq(d, m2);
        assert(m.contains_key(e[e.len() - 1].0@));
        assert(restored(e) =~= m);
    }
}

/// A restored map is finite.
proof fn lemma_restored_finite(e: Seq<(VfsPath, VfsFile)>)
    ensures
        restored(e).dom().finite(),
    decreases e.len(),
{
    if e.len() > 0 {
        lemma_restored_finite(e.drop_last());
    }
}

/// A restored map holds only contents of the entries.
proof fn lemma_restored_bounded(e: Seq<(VfsPath, VfsFile)>)
    requires
        forall|i: int| 0 <= i < e.len() ==> #[trigger] e[i].1.content@.len() <= i64::MAX,
    ensures
        forall|k: Seq<char>|
            #[trigger] restored(e).contains_key(k) ==> restored(e)[k].content.len() <= i64::MAX,
    decreases e.len(),
{
    if e.len() > 0 {
        lemma_restored_bounded(e.drop_last());
        assert forall|k: Seq<char>|
            #[trigger] restored(e).contains_key(k) implies restored(e)[k].content.len() <= i64::MAX by {
            if k != e.last().0@ {
                let d = e.drop_last();
                assert(restored(d).contains_key(k));
            } else {
                assert(e[e.len() - 1].1.content@.len() <= i64::MAX);
            }
        }
    }
}

/// Whether a refusal names the resource `res`.
pub open spec fn refused_for(o: Option<(Seq<char>, usize, usize)>, res: Seq<char>) -> bool {
    o matches Some(t) && t.0 == res
}

impl MemoryBackend {
    /// The stored files, by path.
    pub closed spec fn files(&self) -> Map<Seq<char>, FileView> {
        file_views(stored(self.storage))
    }

    /// The counter of stored files.
    pub closed spec fn count(&self) -> usize {
        self.file_count
    }

    /// The counter of stored bytes.
    pub closed spec fn bytes(&self) -> usize {
        self.total_bytes
    }

    /// The limits.
    pub closed spec fn spec_limits(&self) -> ResourceLimits {
        self.limits
    }

    /// Well-formedness: finitely many files, each of at most `i64::MAX`
    /// bytes, stored under normalized, accepted paths.
    pub open spec fn inv(&self) -> bool {
        &&& self.files().dom().finite()
        &&& forall|k: Seq<char>|
            self.files().contains_key(k) ==> #[trigger] self.files()[k].content.len() <= i64::MAX
        &&& self.keys_normalized()
    }

    /// Whether the counters agree with the stored files.
    pub open spec fn usage_consistent(&self) -> bool {
        &&& self.count() == self.files().len()
        &&& self.bytes() == sum_sizes(self.files())
        &&& forall|k: Seq<char>|
            self.files().contains_key(k) ==> #[trigger] self.files()[k].size
                == self.files()[k].content.len()
    }

    /// The length of the file stored under `key`, zero when there is none.
    pub open spec fn old_len(&self, key: Seq<char>) -> int {
        if self.files().contains_key(key) {
            self.files()[key].content.len() as int
        } else {
            0
        }
    }

    /// Whether the signed 64-bit arithmetic of a write of `len` bytes to
    /// `key` stays in range.
    pub open spec fn write_fits(&self, key: Seq<char>, len: nat) -> bool {
        &&& len <= i64::MAX
        &&& self.bytes() <= i64::MAX
        &&& self.bytes() + len - self.old_len(key) <= i64::MAX
    }

    /// The quota that a write of `len` bytes to `key` exceeds, as (resource,
    /// limit, current), or `None` when it is allowed: the file-size limit,
    /// then the file-count limit for a new file, then the storage limit.
    pub open spec fn write_refusal(&self, key: Seq<char>, len: nat) -> Option<(Seq<char>, usize, usize)> {
        if len > self.spec_limits().max_file_size {
            Some(("file_size"@, self.spec_limits().max_file_size, len as usize))
        } else if !self.files().contains_key(key) && self.count() >= self.spec_limits().max_files {
            Some(("file_count"@, self.spec_limits().max_files, self.count()))
        } else if ((self.bytes() + len - self.old_len(key)) as i64) as usize
            > self.spec_limits().max_total_storage {
            Some(("total_storage"@, self.spec_limits().max_total_storage, self.bytes()))
        } else {
            None
        }
    }

    /// Whether `b` is `a` after a successful write of `content` to `key`.
    pub open spec fn write_effect(a: &MemoryBackend, key: Seq<char>, content: Seq<u8>, b: &MemoryBackend) -> bool {
        let delta = content.len() - a.old_len(key);
        &&& b.files().contains_key(key)
        &&& b.files()[key].content == content
        &&& b.files()[key].size == content.len()
        &&& a.files().contains_key(key) ==> b.files()[key].created_at == a.files()[key].created_at
        &&& !a.files().contains_key(key) ==> b.files()[key].created_at == b.files()[key].modified_at
        &&& b.files().remove(key) == a.files().remove(key)
        &&& b.spec_limits() == a.spec_limits()
        &&& b.count() == if a.files().contains_key(key) {
            a.count()
        } else {
            vstd::wrapping::usize_specs::wrapping_add(a.count(), 1)
        }
        &&& b.bytes() == if delta > 0 {
            vstd::wrapping::usize_specs::wrapping_add(a.bytes(), delta as usize)
        } else if delta < 0 {
            vstd::wrapping::usize_specs::wrapping_sub(a.bytes(), (-delta) as usize)
        } else {
            a.bytes()
        }
    }

    /// Whether `b` is `a` after removing the file stored under `key`.
    pub open spec fn delete_effect(a: &MemoryBackend, key: Seq<char>, b: &MemoryBackend) -> bool {
        &&& b.files() == a.files().remove(key)
        &&& b.spec_limits() == a.spec_limits()
        &&& b.count() == vstd::wrapping::usize_specs::wrapping_sub(a.count(), 1)
        &&& b.bytes() == vstd::wrapping::usize_specs::wrapping_sub(a.bytes(), a.files()[key].size)
    }

    /// What [`MemoryBackend::read`] answers for `key`: the stored bytes, or
    /// `NotFound` naming `key`.
    pub open spec fn read_outcome(&self, key: Seq<char>, r: VfsResult<Vec<u8>>) -> bool {
        &&& r is Ok <==> self.files().contains_key(key)
        &&& r matches Ok(c) ==> c@ == self.files()[key].content
        &&& r matches Err(e) ==> (e matches VfsError::NotFound { path: p } && p@ == key)
    }

    /// What [`MemoryBackend::metadata`] answers for `key`: a copy of the
    /// stored file, or `NotFound` naming `key`.
    pub open spec fn metadata_outcome(&self, key: Seq<char>, r: VfsResult<VfsFile>) -> bool {
        &&& r is Ok <==> self.files().contains_key(key)
        &&& r matches Ok(f) ==> f@ == self.files()[key]
        &&& r matches Err(e) ==> (e matches VfsError::NotFound { path: p } && p@ == key)
    }

    /// What a write of `content` to `key` does: a refused write answers the
    /// quota error and changes nothing; an allowed one has
    /// [`MemoryBackend::write_effect`].
    pub open spec fn write_outcome(a: &MemoryBackend, key: Seq<char>, content: Seq<u8>, r: VfsResult<()>, b: &MemoryBackend) -> bool {
        match a.write_refusal(key, content.len()) {
            Some((res, lim, cur)) => (r matches Err(e) && quota_error(e, res, lim, cur))
                && MemoryBackend::same_state(a, b),
            None => r is Ok && MemoryBackend::write_effect(a, key, content, b),
        }
    }

    /// What a deletion of `key` does: `NotFound` naming `key` and no change
    /// when nothing is stored there, else [`MemoryBackend::delete_effect`].
    pub open spec fn delete_outcome(a: &MemoryBackend, key: Seq<char>, r: VfsResult<()>, b: &MemoryBackend) -> bool {
        &&& r is Ok <==> a.files().contains_key(key)
        &&& r matches Err(e) ==> (e matches VfsError::NotFound { path: p } && p@ == key)
            && MemoryBackend::same_state(a, b)
        &&& r is Ok ==> MemoryBackend::delete_effect(a, key, b)
    }

    /// Whether two backends hold the same files, counters and limits.
    pub open spec fn same_state(a: &MemoryBackend, b: &MemoryBackend) -> bool {
        &&& a.files() == b.files()
        &&& a.count() == b.count()
        &&& a.bytes() == b.bytes()
        &&& a.spec_limits() == b.spec_limits()
    }

    /// The children of the directory `dir` that [`MemoryBackend::list_dir`]
    /// names.
    pub open spec fn children(&self, dir: Seq<char>) -> Set<Seq<char>> {
        Set::new(
            |c: Seq<char>|
                exists|k: Seq<char>|
                    self.files().contains_key(k) && #[trigger] child_name(k, dir_prefix(dir))
                        == Some(c),
        )
    }

    /// The normalized joins of `dir/` with the children of `dir`.
    pub open spec fn child_paths(&self, dir: Seq<char>) -> Set<Seq<char>> {
        Set::new(
            |p: Seq<char>|
                exists|c: Seq<char>|
                    self.children(dir).contains(c) && #[trigger] joins_child(p, dir_prefix(dir), c),
        )
    }

    /// Whether `v` lists the children of directory `dir`: each element is
    /// the normalized join of `dir/` with a child, and each child whose join
    /// is accepted appears.
    pub open spec fn lists_children(&self, dir: Seq<char>, v: Seq<VfsPath>) -> bool {
        &&& forall|i: int| 0 <= i < v.len() ==> self.child_paths(dir).contains(#[trigger] v[i]@)
        &&& forall|c: Seq<char>|
            self.children(dir).contains(c) && seq_accepted(dir_prefix(dir) + c) ==> exists|i: int|
                0 <= i < v.len() && joins_child(#[trigger] v[i]@, dir_prefix(dir), c)
    }

    /// A backend with the default limits.
    pub fn new() -> (r: MemoryBackend)
        ensures
            r.inv(),
            r.usage_consistent(),
            r.files() == Map::<Seq<char>, FileView>::empty(),
            r.spec_limits() == ResourceLimits::spec_default(),
    {
        MemoryBackend::with_limits(ResourceLimits::default())
    }

    /// A backend with the given limits.
    pub fn with_limits(limits: ResourceLimits) -> (r: MemoryBackend)
        ensures
            r.inv(),
            r.usage_consistent(),
            r.files() == Map::<Seq<char>, FileView>::empty(),
            r.spec_limits() == limits,
    {
        let r = MemoryBackend { storage: store_new(), limits, total_bytes: 0, file_count: 0 };
        proof {
            assert(r.files() =~= Map::<Seq<char>, FileView>::empty());
            lemma_sum_empty(r.files());
        }
        r
    }

    /// Removes every file and resets the counters.
    pub fn clear(&mut self)
        ensures
            final(self).inv(),
            final(self).usage_consistent(),
            final(self).files() == Map::<Seq<char>, FileView>::empty(),
            final(self).spec_limits() == old(self).spec_limits(),
    {
        store_clear(&mut self.storage);
        self.total_bytes = 0;
        self.file_count = 0;
        proof {
            assert(self.files() =~= Map::<Seq<char>, FileView>::empty());
            lemma_sum_empty(self.files());
        }
    }

    /// The number of stored files.
    pub fn len(&self) -> (r: usize)
        ensures
            r == self.files().len(),
    {
        proof {
            assert(self.files().dom() =~= stored(self.storage).dom());
        }
        store_len(&self.storage)
    }

    /// Whether no file is stored.
    pub fn is_empty(&self) -> (r: bool)
        requires
            self.inv(),
        ensures
            r == (self.files().len() == 0),
    {
        self.len() == 0
    }

    /// The (file count, total bytes) counters.
    pub fn current_usage(&self) -> (r: (usize, usize))
        ensures
            r == (self.count(), self.bytes()),
    {
        (self.file_count, self.total_bytes)
    }

    /// The limits.
    pub fn limits(&self) -> (r: &ResourceLimits)
        ensures
            *r == self.spec_limits(),
    {
        &self.limits
    }

    /// Checks a write of `content_len` bytes replacing a file of `old_size`
    /// bytes against the limits.
    fn check_write_limits(&self, content_len: usize, is_new: bool, old_size: usize) -> (r: VfsResult<()>)
        requires
            content_len <= i64::MAX,
            old_size <= i64::MAX,
            self.bytes() <= i64::MAX,
            self.bytes() + content_len - old_size <= i64::MAX,
        ensures
            content_len > self.limits.max_file_size ==> (r matches Err(e) && quota_error(
                e,
                "file_size"@,
                self.limits.max_file_size,
                content_len,
            )),
            content_len <= self.limits.max_file_size && is_new && self.file_count
                >= self.limits.max_files ==> (r matches Err(e) && quota_error(
                e,
                "file_count"@,
                self.limits.max_files,
                self.file_count,
            )),
            content_len <= self.limits.max_file_size && !(is_new && self.file_count
                >= self.limits.max_files) ==> ({
                let t = ((self.total_bytes + content_len - old_size) as i64) as usize;
                &&& t > self.limits.max_total_storage ==> (r matches Err(e) && quota_error(
                    e,
                    "total_storage"@,
                    self.limits.max_total_storage,
                    self.total_bytes,
                ))
                &&& t <= self.limits.max_total_storage ==> r is Ok
            }),
    {
        if content_len > self.limits.max_file_size {
            return Err(VfsError::QuotaExceeded {
                resource: String::from_str("file_size"),
                limit: self.limits.max_file_size,
                current: content_len,
            });
        }
        if is_new {
            let current_count = self.file_count;
            if current_count >= self.limits.max_files {
                return Err(VfsError::QuotaExceeded {
                    resource: String::from_str("file_count"),
                    limit: self.limits.max_files,
                    current: current_count,
                });
            }
        }
        let size_delta = content_len as i64 - old_size as i64;
        let current_total = self.total_bytes as i64;
        let new_total = (current_total + size_delta) as usize;
        if new_total > self.limits.max_total_storage {
            return Err(VfsError::QuotaExceeded {
                resource: String::from_str("total_storage"),
                limit: self.limits.max_total_storage,
                current: current_total as usize,
            });
        }
        Ok(())
    }

    /// The content of the file at `path`, or `NotFound` naming the path.
    pub fn read(&self, path: &VfsPath) -> (r: VfsResult<Vec<u8>>)
        ensures
            self.read_outcome(path@, r),
    {
        match store_get(&self.storage, path.as_str()) {
            Some(f) => Ok(f.content),
            None => Err(VfsError::NotFound { path: path.to_string() }),
        }
    }

    /// Stores `content` at `path`, keeping the creation time of a file it
    /// replaces, after checking the limits; a refused write changes nothing.
    pub fn write(&mut self, path: &VfsPath, content: &[u8]) -> (r: VfsResult<()>)
        requires
            old(self).inv(),
            old(self).write_fits(path@, content@.len()),
        ensures
            final(self).inv(),
            MemoryBackend::write_outcome(old(self), path@, content@, r, final(self)),
    {
        let content_len = content.len();
        let existing = store_get(&self.storage, path.as_str());
        let is_new = existing.is_none();
        let old_size = match &existing {
            Some(f) => f.content.len(),
            None => 0,
        };
        proof {
            assert(old_size == self.old_len(path@));
            use_type_invariant(path);
        }
        let checked = self.check_write_limits(content_len, is_new, old_size);
        match checked {
            Err(e) => {
                return Err(e);
            },
            Ok(()) => {},
        }
        let now = now_nanos();
        let mut bytes: Vec<u8> = Vec::new();
        bytes.extend_from_slice(content);
        assert(bytes@ =~= content@);
        let file = match existing {
            Some(f) => VfsFile {
                content: bytes,
                created_at: f.created_at,
                modified_at: now,
                size: content_len,
            },
            None => VfsFile { content: bytes, created_at: now, modified_at: now, size: content_len },
        };
        let ghost before = *self;
        store_insert(&mut self.storage, path.to_string(), file);
        if is_new {
            self.file_count = self.file_count.wrapping_add(1);
        }
        let size_delta = content_len as i64 - old_size as i64;
        if size_delta > 0 {
            self.total_bytes = self.total_bytes.wrapping_add(size_delta as usize);
        } else if size_delta < 0 {
            self.total_bytes = self.total_bytes.wrapping_sub((-size_delta) as usize);
        }
        proof {
            assert(self.files() =~= before.files().insert(path@, file@));
            assert(self.files().remove(path@) =~= before.files().remove(path@));
            assert(self.files().dom() =~= before.files().dom().insert(path@));
        }
        Ok(())
    }

    /// Whether a file is stored at `path`.
    pub fn exists_path(&self, path: &VfsPath) -> (r: bool)
        ensures
            r == self.files().contains_key(path@),
    {
        store_contains(&self.storage, path.as_str())
    }

    /// Removes the file at `path`, or answers `NotFound` and changes nothing.
    pub fn delete(&mut self, path: &VfsPath) -> (r: VfsResult<()>)
        requires
            old(self).inv(),
        ensures
            final(self).inv(),
            MemoryBackend::delete_outcome(old(self), path@, r, final(self)),
    {
        let ghost before = *self;
        match store_remove(&mut self.storage, path.as_str()) {
            Some(file) => {
                self.file_count = self.file_count.wrapping_sub(1);
                self.total_bytes = self.total_bytes.wrapping_sub(file.size);
                proof {
                    assert(self.files() =~= before.files().remove(path@));
                }
                Ok(())
            },
            None => {
                proof {
                    assert(stored(self.storage) =~= stored(before.storage));
                }
                Err(VfsError::NotFound { path: path.to_string() })
            },
        }
    }

    /// The paths of the children of directory `path`: every name that
    /// follows `path/` in a stored path, up to the next `/`, joined to
    /// `path/` and normalized.
    pub fn list_dir(&self, path: &VfsPath) -> (r: VfsResult<Vec<VfsPath>>)
        ensures
            r is Ok,
            r matches Ok(v) ==> self.lists_children(path@, v@),
    {
        let mut pre = str_chars(path.as_str());
        if !(pre.len() > 0 && pre[pre.len() - 1] == '/') {
            pre.push('/');
        }
        assert(pre@ == dir_prefix(path@));
        let keys = store_keys(&self.storage);
        let ghost m = stored(self.storage);
        proof {
            assert(self.files().dom() =~= m.dom());
        }
        let mut names: Vec<Vec<char>> = Vec::new();
        let mut i: usize = 0;
        while i < keys.len()
            invariant
                i <= keys@.len(),
                lists_keys(keys@, m),
                m.dom() == self.files().dom(),
                pre@ == dir_prefix(path@),
                forall|c: Seq<char>|
                    #[trigger] names_hold(names@, c) <==> keys_yield(keys@, i as int, pre@, c),
            decreases keys@.len() - i,
        {
            let kc = str_chars(keys[i].as_str());
            let ghost old_names = names@;
            match child_of(kc.as_slice(), pre.as_slice()) {
                Some(c) => {
                    if !holds_name(&names, &c) {
                        names.push(c);
                    }
                    proof {
                        assert forall|cc: Seq<char>|
                            #[trigger] names_hold(names@, cc) <==> keys_yield(keys@, i + 1, pre@, cc) by {
                            if names_hold(names@, cc) {
                                let t = choose|t: int| 0 <= t < names@.len() && #[trigger] names@[t]@ == cc;
                                if t < old_names.len() {
                                    assert(old_names[t]@ == cc);
                                    assert(names_hold(old_names, cc));
                                    let u = choose|u: int| 0 <= u < i && #[trigger] child_name(keys@[u]@, pre@) == Some(cc);
                                    assert(child_name(keys@[u]@, pre@) == Some(cc));
                                } else {
                                    assert(child_name(keys@[i as int]@, pre@) == Some(cc));
                                }
                            }
                            if keys_yield(keys@, i + 1, pre@, cc) {
                                let u = choose|u: int| 0 <= u < i + 1 && #[trigger] child_name(keys@[u]@, pre@) == Some(cc);
                                if u < i {
                                    assert(keys_yield(keys@, i as int, pre@, cc));
                                    assert(names_hold(old_names, cc));
                                    let t = choose|t: int| 0 <= t < old_names.len() && #[trigger] old_names[t]@ == cc;
                                    assert(names@[t]@ == cc);
                                } else if names@.len() > old_names.len() {
                                    assert(names@[old_names.len() as int]@ == cc);
                                } else {
                                    assert(names_hold(old_names, cc));
                                }
                            }
                        }
                    }
                },
                None => {
                    proof {
                        assert forall|cc: Seq<char>|
                            #[trigger] names_hold(names@, cc) <==> keys_yield(keys@, i + 1, pre@, cc) by {
                            if keys_yield(keys@, i + 1, pre@, cc) {
                                let u = choose|u: int| 0 <= u < i + 1 && #[trigger] child_name(keys@[u]@, pre@) == Some(cc);
                                assert(u != i);
                                assert(keys_yield(keys@, i as int, pre@, cc));
                            }
                            if names_hold(names@, cc) {
                                assert(keys_yield(keys@, i as int, pre@, cc));
                                let u = choose|u: int| 0 <= u < i && #[trigger] child_name(keys@[u]@, pre@) == Some(cc);
                                assert(child_name(keys@[u]@, pre@) == Some(cc));
                            }
                        }
                    }
                },
            }
            i = i + 1;
        }
        proof {
            assert forall|c: Seq<char>|
                #[trigger] self.children(path@).contains(c) <==> names_hold(names@, c) by {
                if self.children(path@).contains(c) {
                    let k = choose|k: Seq<char>|
                        self.files().contains_key(k) && #[trigger] child_name(k, dir_prefix(path@))
                            == Some(c);
                    assert(m.contains_key(k));
                    let u = choose|u: int| 0 <= u < keys@.len() && #[trigger] keys@[u]@ == k;
                    assert(child_name(keys@[u]@, pre@) == Some(c));
                    assert(keys_yield(keys@, keys@.len() as int, pre@, c));
                }
                if names_hold(names@, c) {
                    assert(keys_yield(keys@, keys@.len() as int, pre@, c));
                    let u = choose|u: int|
                        0 <= u < keys@.len() && #[trigger] child_name(keys@[u]@, pre@) == Some(c);
                    assert(m.contains_key(keys@[u]@));
                    assert(self.files().contains_key(keys@[u]@));
                }
            }
        }
        let mut out: Vec<VfsPath> = Vec::new();
        let mut j: usize = 0;
        while j < names.len()
            invariant
                j <= names@.len(),
                pre@ == dir_prefix(path@),
                forall|c: Seq<char>|
                    #[trigger] self.children(path@).contains(c) <==> names_hold(names@, c),
                forall|x: int|
                    0 <= x < out@.len() ==> self.child_paths(path@).contains(#[trigger] out@[x]@),
                forall|t: int|
                    0 <= t < j && seq_accepted(pre@ + #[trigger] names@[t]@) ==> exists|x: int|
                        0 <= x < out@.len() && Some(#[trigger] out@[x]@) == normalize_path(
                            pre@ + names@[t]@,
                        ),
            decreases names@.len() - j,
        {
            let mut full: Vec<char> = Vec::new();
            push_chars(&mut full, pre.as_slice());
            push_chars(&mut full, names[j].as_slice());
            assert(full@ =~= pre@ + names@[j as int]@);
            let s = string_from_chars(full.as_slice());
            let ghost old_out = out@;
            let sref = s.as_str();
            match VfsPath::new(sref) {
                Ok(p) => {
                    assert(sref@ == pre@ + names@[j as int]@);
                    assert(joins_child(p@, pre@, names@[j as int]@));
                    out.push(p);
                    proof {
                        assert(self.children(path@).contains(names@[j as int]@));
                        assert(self.child_paths(path@).contains(p@));
                        assert forall|x: int|
                            0 <= x < out@.len() implies self.child_paths(path@).contains(#[trigger] out@[x]@) by {
                            if x < old_out.len() {
                                assert(out@[x] == old_out[x]);
                            }
                        }
                        assert forall|t: int|
                            0 <= t < j + 1 && seq_accepted(pre@ + #[trigger] names@[t]@) implies exists|x: int|
                            0 <= x < out@.len() && Some(#[trigger] out@[x]@) == normalize_path(
                                pre@ + names@[t]@,
                            ) by {
                            if t < j {
                                let x = choose|x: int|
                                    0 <= x < old_out.len() && Some(#[trigger] old_out[x]@)
                                        == normalize_path(pre@ + names@[t]@);
                                assert(out@[x] == old_out[x]);
                            } else {
                                assert(out@[old_out.len() as int]@ == p@);
                            }
                        }
                    }
                },
                Err(_) => {
                    assert(!seq_accepted(pre@ + names@[j as int]@));
                },
            }
            j = j + 1;
        }
        proof {
            assert forall|c: Seq<char>|
                self.children(path@).contains(c) && seq_accepted(dir_prefix(path@) + c) implies exists|i: int|
                0 <= i < out@.len() && joins_child(#[trigger] out@[i]@, dir_prefix(path@), c) by {
                assert(names_hold(names@, c));
                let t = choose|t: int| 0 <= t < names@.len() && #[trigger] names@[t]@ == c;
                assert(seq_accepted(pre@ + names@[t]@));
                let x = choose|x: int| 0 <= x < out@.len() && Some(#[trigger] out@[x]@) == normalize_path(pre@ + names@[t]@);
                assert(joins_child(out@[x]@, dir_prefix(path@), c));
            }
            assert(self.lists_children(path@, out@));
        }
        Ok(out)
    }

    /// Whether every stored path is its own normalized form and accepted.
    pub open spec fn keys_normalized(&self) -> bool {
        forall|k: Seq<char>|
            #[trigger] self.files().contains_key(k) ==> seq_accepted(k) && normalize_path(k) == Some(
                k,
            )
    }

    /// The (path, file) pairs that [`MemoryBackend::snapshot_entries`] may
    /// answer: each accepted stored path, normalized, with its file.
    pub open spec fn snapshot_pairs(&self) -> Set<(Seq<char>, FileView)> {
        Set::new(
            |e: (Seq<char>, FileView)|
                exists|k: Seq<char>|
                    #[trigger] self.files().contains_key(k) && seq_accepted(k) && normalize_path(k)
                        == Some(e.0) && self.files()[k] == e.1,
        )
    }

    /// Whether `v` is a snapshot of the backend: every element is a snapshot
    /// pair, every accepted stored path appears, and when the stored paths are
    /// normalized no path appears twice.
    pub open spec fn is_snapshot(&self, v: Seq<(VfsPath, VfsFile)>) -> bool {
        &&& forall|i: int| 0 <= i < v.len() ==> self.snapshot_pairs().contains((#[trigger] v[i].0@, v[i].1@))
        &&& forall|k: Seq<char>|
            self.files().contains_key(k) && seq_accepted(k) ==> exists|i: int|
                0 <= i < v.len() && Some(#[trigger] v[i].0@) == normalize_path(k) && v[i].1@
                    == self.files()[k]
        &&& self.keys_normalized() ==> forall|i: int, j: int|
            0 <= i < j < v.len() ==> #[trigger] v[i].0@ != #[trigger] v[j].0@
    }

    /// Every stored file whose path is accepted, as (path, file) pairs in an
    /// order that the map does not fix.
    pub fn snapshot_entries(&self) -> (r: Vec<(VfsPath, VfsFile)>)
        ensures
            self.is_snapshot(r@),
    {
        let entries = store_entries(&self.storage);
        let ghost m = stored(self.storage);
        let mut out: Vec<(VfsPath, VfsFile)> = Vec::new();
        let ghost mut srcs: Seq<int> = Seq::empty();
        let mut i: usize = 0;
        while i < entries.len()
            invariant
                i <= entries@.len(),
                lists_entries(entries@, m),
                m == stored(self.storage),
                srcs.len() == out@.len(),
                forall|x: int| 0 <= x < out@.len() ==> 0 <= #[trigger] srcs[x] < i,
                forall|x: int, y: int| 0 <= x < y < out@.len() ==> #[trigger] srcs[x] < #[trigger] srcs[y],
                forall|x: int| 0 <= x < out@.len() ==> #[trigger] snap_elem(entries@, m, srcs[x], out@[x]),
                forall|t: int|
                    0 <= t < i && seq_accepted(#[trigger] entries@[t].0@) ==> exists|x: int|
                        0 <= x < out@.len() && #[trigger] srcs[x] == t,
            decreases entries@.len() - i,
        {
            let ks = entries[i].0.as_str();
            match VfsPath::new(ks) {
                Ok(p) => {
                    let f = entries[i].1.clone();
                    let ghost old_out = out@;
                    let ghost old_srcs = srcs;
                    out.push((p, f));
                    proof {
                        srcs = srcs.push(i as int);
                        assert forall|t: int|
                            0 <= t < i + 1 && seq_accepted(#[trigger] entries@[t].0@) implies exists|x: int|
                            0 <= x < out@.len() && #[trigger] srcs[x] == t by {
                            if t < i {
                                let x = choose|x: int| 0 <= x < old_out.len() && #[trigger] old_srcs[x] == t;
                                assert(srcs[x] == t);
                            } else {
                                assert(srcs[old_out.len() as int] == t);
                            }
                        }
                        assert forall|x: int|
                            0 <= x < out@.len() implies #[trigger] snap_elem(entries@, m, srcs[x], out@[x]) by {
                            if x < old_out.len() {
                                assert(out@[x] == old_out[x]);
                                assert(srcs[x] == old_srcs[x]);
                                assert(snap_elem(entries@, m, old_srcs[x], old_out[x]));
                            } else {
                                assert(srcs[x] == i);
                                assert(out@[x].0@ == p@);
                                assert(out@[x].1@ == entries@[i as int].1@);
                                assert(m.contains_key(entries@[i as int].0@));
                                assert(ks@ == entries@[i as int].0@);
                            }
                        }
                    }
                },
                Err(_) => {},
            }
            i = i + 1;
        }
        proof {
            assert(self.files().dom() =~= m.dom());
            assert forall|i: int| 0 <= i < out@.len() implies self.snapshot_pairs().contains((#[trigger] out@[i].0@, out@[i].1@)) by {
                assert(snap_elem(entries@, m, srcs[i], out@[i]));
                let k = entries@[srcs[i]].0@;
                assert(self.files().contains_key(k));
            }
            assert forall|k: Seq<char>|
                self.files().contains_key(k) && seq_accepted(k) implies exists|i: int|
                0 <= i < out@.len() && Some(#[trigger] out@[i].0@) == normalize_path(k) && out@[i].1@
                    == self.files()[k] by {
                assert(m.contains_key(k));
                let t = choose|t: int| 0 <= t < entries@.len() && #[trigger] entries@[t].0@ == k;
                let x = choose|x: int| 0 <= x < out@.len() && #[trigger] srcs[x] == t;
                assert(snap_elem(entries@, m, srcs[x], out@[x]));
                assert(Some(out@[x].0@) == normalize_path(k));
            }
            if self.keys_normalized() {
                assert forall|i: int, j: int| 0 <= i < j < out@.len() implies #[trigger] out@[i].0@ != #[trigger] out@[j].0@ by {
                    assert(snap_elem(entries@, m, srcs[i], out@[i]));
                    assert(snap_elem(entries@, m, srcs[j], out@[j]));
                    let ki = entries@[srcs[i]].0@;
                    let kj = entries@[srcs[j]].0@;
                    assert(self.files().contains_key(ki));
                    assert(self.files().contains_key(kj));
                    assert(srcs[i] < srcs[j]);
                }
            }
        }
        out
    }

    /// Replaces every stored file by `entries`, stored in order (a later
    /// entry for a path replaces an earlier one), and sets the counters to the
    /// number of entries and the sum of their content lengths.
    pub fn restore_from_snapshot(&mut self, entries: &[(VfsPath, VfsFile)])
        requires
            entries_bytes(entries@) <= usize::MAX,
            forall|i: int| 0 <= i < entries@.len() ==> #[trigger] entries@[i].1.content@.len() <= i64::MAX,
        ensures
            final(self).inv(),
            final(self).files() == restored(entries@),
            final(self).count() == entries@.len(),
            final(self).bytes() == entries_bytes(entries@),
            final(self).spec_limits() == old(self).spec_limits(),
    {
        store_clear(&mut self.storage);
        let mut total_bytes: usize = 0;
        let mut i: usize = 0;
        while i < entries.len()
            invariant
                i <= entries@.len(),
                entries_bytes(entries@) <= usize::MAX,
                file_views(stored(self.storage)) == restored(entries@.subrange(0, i as int)),
                total_bytes == entries_bytes(entries@.subrange(0, i as int)),
                forall|j: int| 0 <= j < entries@.len() ==> #[trigger] entries@[j].1.content@.len() <= i64::MAX,
                self.limits == old(self).limits,
                forall|k: Seq<char>|
                    #[trigger] file_views(stored(self.storage)).contains_key(k) ==> seq_accepted(k)
                        && normalize_path(k) == Some(k),
            decreases entries@.len() - i,
        {
            let entry_path = &entries[i].0;
            proof {
                use_type_invariant(entry_path);
            }
            proof {
                let pre = entries@.subrange(0, i + 1);
                assert(pre.drop_last() =~= entries@.subrange(0, i as int));
                lemma_entries_bytes_prefix(entries@, i + 1);
            }
            total_bytes = total_bytes + entries[i].1.content.len();
            let ghost before = stored(self.storage);
            store_insert(&mut self.storage, entries[i].0.to_string(), entries[i].1.clone());
            proof {
                assert(file_views(stored(self.storage)) =~= file_views(before).insert(
                    entries@[i as int].0@,
                    entries@[i as int].1@,
                ));
            }
            i = i + 1;
        }
        assert(entries@.subrange(0, entries@.len() as int) =~= entries@);
        self.file_count = entries.len();
        self.total_bytes = total_bytes;
        proof {
            lemma_restored_finite(entries@);
            lemma_restored_bounded(entries@);
        }
    }

    /// A successful write is read back: the file stored at the written path
    /// holds the written bytes.
    pub proof fn law_write_then_read(a: &MemoryBackend, key: Seq<char>, content: Seq<u8>, b: &MemoryBackend)
        requires
            MemoryBackend::write_effect(a, key, content, b),
        ensures
            b.files().contains_key(key),
            b.files()[key].content == content,
    {
    }

    /// A successful write leaves every other path as it was.
    pub proof fn law_write_keeps_other_paths(
        a: &MemoryBackend,
        key: Seq<char>,
        content: Seq<u8>,
        b: &MemoryBackend,
        other: Seq<char>,
    )
        requires
            MemoryBackend::write_effect(a, key, content, b),
            other != key,
        ensures
            b.files().contains_key(other) == a.files().contains_key(other),
            a.files().contains_key(other) ==> b.files()[other] == a.files()[other],
    {
        assert(b.files().remove(key).contains_key(other) == b.files().contains_key(other));
        assert(a.files().remove(key).contains_key(other) == a.files().contains_key(other));
        if a.files().contains_key(other) {
            assert(b.files().remove(key)[other] == b.files()[other]);
            assert(a.files().remove(key)[other] == a.files()[other]);
        }
    }

    /// An allowed write keeps the counters in agreement with the files. The
    /// quota check computes the new total in `i64` and the counter holds it
    /// in `usize`: the law covers writes whose new total fits both.
    pub proof fn law_write_keeps_usage(a: &MemoryBackend, key: Seq<char>, content: Seq<u8>, b: &MemoryBackend)
        requires
            a.inv(),
            a.usage_consistent(),
            a.write_fits(key, content.len()),
            a.write_refusal(key, content.len()) is None,
            a.bytes() + content.len() - a.old_len(key) <= usize::MAX,
            MemoryBackend::write_effect(a, key, content, b),
        ensures
            b.usage_consistent(),
    {
        let fa = a.files();
        let fb = b.files();
        assert(fb =~= fa.insert(key, fb[key])) by {
            assert forall|k: Seq<char>| #[trigger] fb.contains_key(k) == fa.insert(key, fb[key]).contains_key(k) by {
                if k != key {
                    assert(fb.remove(key).contains_key(k) == fb.contains_key(k));
                    assert(fa.remove(key).contains_key(k) == fa.contains_key(k));
                }
            }
            assert forall|k: Seq<char>| #[trigger] fb.contains_key(k) implies fb[k] == fa.insert(key, fb[key])[k] by {
                if k != key {
                    assert(fb.remove(key)[k] == fb[k]);
                    assert(fa.remove(key)[k] == fa[k]);
                }
            }
        }
        lemma_sum_insert(fa, key, fb[key]);
        let old = a.old_len(key);
        if fa.contains_key(key) {
            lemma_sum_remove(fa, key);
            assert(fa.insert(key, fb[key]).dom() =~= fa.dom());
        } else {
            assert(fa.insert(key, fb[key]).dom() =~= fa.dom().insert(key));
        }
        assert(0 <= a.bytes() - old);
        let t = a.bytes() + content.len() - old;
        assert(0 <= t <= i64::MAX);
        let ti = t as i64;
        assert(ti == t);
        let um: usize = usize::MAX;
        assert(0 <= ti && ti as u64 <= um as u64 ==> ti as usize as u64 == ti as u64) by (bit_vector);
        assert(ti as usize == t);
        assert(t <= a.spec_limits().max_total_storage);
        assert(b.bytes() == t);
        assert forall|k: Seq<char>| #[trigger] fb.contains_key(k) implies fb[k].size == fb[k].content.len() by {
            if k != key {
                assert(fa.contains_key(k));
            }
        }
    }

    /// Overwriting is not adding: a write to a path that already holds a
    /// file is refused only for the file size or the storage total, never
    /// for the file count, whatever the number of files stored.
    pub proof fn law_overwrite_ignores_file_count(a: &MemoryBackend, key: Seq<char>, len: nat)
        requires
            a.inv(),
            a.usage_consistent(),
            a.write_fits(key, len),
            a.files().contains_key(key),
            len <= a.spec_limits().max_file_size,
            a.bytes() + len - a.old_len(key) <= a.spec_limits().max_total_storage,
        ensures
            a.write_refusal(key, len) is None,
    {
        lemma_sum_remove(a.files(), key);
        let t = a.bytes() + len - a.old_len(key);
        assert(0 <= t <= i64::MAX);
        let ti = t as i64;
        assert(ti == t);
        let um: usize = usize::MAX;
        assert(0 <= ti && ti as u64 <= um as u64 ==> ti as usize as u64 == ti as u64) by (bit_vector);
        assert(t <= usize::MAX);
        assert(ti as usize == t);
    }

    /// A write that breaks no quota succeeds: where the content fits the
    /// file-size limit, the storage total stays within its limit, and the
    /// path is stored already or the file count is below its limit, the
    /// write answers `Ok` and stores the content.
    pub proof fn law_write_within_limits_succeeds(
        a: &MemoryBackend,
        key: Seq<char>,
        content: Seq<u8>,
        r: VfsResult<()>,
        b: &MemoryBackend,
    )
        requires
            a.inv(),
            a.usage_consistent(),
            a.write_fits(key, content.len()),
            content.len() <= a.spec_limits().max_file_size,
            a.files().contains_key(key) || a.count() < a.spec_limits().max_files,
            a.bytes() + content.len() - a.old_len(key) <= a.spec_limits().max_total_storage,
            MemoryBackend::write_outcome(a, key, content, r, b),
        ensures
            r is Ok,
            b.files().contains_key(key),
            b.files()[key].content == content,
    {
        if a.files().contains_key(key) {
            lemma_sum_remove(a.files(), key);
        }
        let t = a.bytes() + content.len() - a.old_len(key);
        assert(0 <= t <= i64::MAX);
        let ti = t as i64;
        assert(ti == t);
        let um: usize = usize::MAX;
        assert(0 <= ti && ti as u64 <= um as u64 ==> ti as usize as u64 == ti as u64) by (bit_vector);
        assert(t <= usize::MAX);
        assert(ti as usize == t);
        assert(a.write_refusal(key, content.len()) is None);
    }

    /// What a write is refused for: content over the file-size limit is
    /// refused for the file size; otherwise a new file while the count is at
    /// its limit is refused for the file count; and a refused write changes
    /// nothing.
    pub proof fn law_write_refusals(
        a: &MemoryBackend,
        key: Seq<char>,
        content: Seq<u8>,
        r: VfsResult<()>,
        b: &MemoryBackend,
    )
        requires
            MemoryBackend::write_outcome(a, key, content, r, b),
        ensures
            content.len() > a.spec_limits().max_file_size ==> r is Err && refused_for(
                a.write_refusal(key, content.len()),
                "file_size"@,
            ),
            content.len() <= a.spec_limits().max_file_size && !a.files().contains_key(key) && a.count()
                >= a.spec_limits().max_files ==> r is Err && refused_for(
                a.write_refusal(key, content.len()),
                "file_count"@,
            ),
            r is Err ==> b.files() == a.files() && b.count() == a.count() && b.bytes() == a.bytes(),
    {
    }

    /// A deletion keeps the counters in agreement with the files.
    pub proof fn law_delete_keeps_usage(a: &MemoryBackend, key: Seq<char>, b: &MemoryBackend)
        requires
            a.inv(),
            a.usage_consistent(),
            a.files().contains_key(key),
            MemoryBackend::delete_effect(a, key, b),
        ensures
            b.usage_consistent(),
    {
        lemma_sum_remove(a.files(), key);
        assert(a.files().remove(key).dom() =~= a.files().dom().remove(key));
        assert forall|k: Seq<char>| #[trigger] b.files().contains_key(k) implies b.files()[k].size == b.files()[k].content.len() by {
            assert(a.files().contains_key(k));
        }
    }

    /// Restoring entries with distinct paths, whose recorded sizes equal
    /// their content lengths, leaves counters that agree with the files.
    pub proof fn law_restore_keeps_usage(entries: Seq<(VfsPath, VfsFile)>, b: &MemoryBackend)
        requires
            distinct_paths(entries),
            forall|i: int| 0 <= i < entries.len() ==> #[trigger] entries[i].1.size == entries[i].1.content@.len(),
            b.files() == restored(entries),
            b.count() == entries.len(),
            b.bytes() == entries_bytes(entries),
        ensures
            b.usage_consistent(),
    {
        lemma_restored_usage(entries);
    }

    /// Snapshot round trip: the entries of a snapshot have distinct paths
    /// and contents that [`MemoryBackend::restore_from_snapshot`] accepts, and
    /// restoring them gives back exactly the backend's files; where the
    /// backend's counters agree with its files, the entries count and add up
    /// to the same numbers, so the restored counters equal the original ones.
    pub proof fn law_snapshot_restore_roundtrip(a: &MemoryBackend, v: Seq<(VfsPath, VfsFile)>)
        requires
            a.inv(),
            a.is_snapshot(v),
        ensures
            restored(v) == a.files(),
            distinct_paths(v),
            forall|i: int| 0 <= i < v.len() ==> #[trigger] v[i].1.content@.len() <= i64::MAX,
            a.usage_consistent() ==> v.len() == a.count() && entries_bytes(v) == a.bytes(),
    {
        let m = a.files();
        assert forall|i: int| 0 <= i < v.len() implies m.contains_key(#[trigger] v[i].0@) && m[v[i].0@] == v[i].1@ by {
            assert(a.snapshot_pairs().contains((v[i].0@, v[i].1@)));
            let k = choose|k: Seq<char>|
                #[trigger] m.contains_key(k) && seq_accepted(k) && normalize_path(k) == Some(v[i].0@)
                    && m[k] == v[i].1@;
            assert(normalize_path(k) == Some(k));
        }
        assert forall|k: Seq<char>| m.contains_key(k) implies exists|i: int| 0 <= i < v.len() && #[trigger] v[i].0@ == k by {
            assert(seq_accepted(k) && normalize_path(k) == Some(k));
            let i = choose|i: int|
                0 <= i < v.len() && Some(#[trigger] v[i].0@) == normalize_path(k) && v[i].1@ == m[k];
            assert(v[i].0@ == k);
        }
        lemma_restored_eq(v, m);
        assert forall|i: int| 0 <= i < v.len() implies #[trigger] v[i].1.content@.len() <= i64::MAX by {
            assert(m.contains_key(v[i].0@) && m[v[i].0@] == v[i].1@);
            assert(m[v[i].0@].content.len() <= i64::MAX);
        }
        if a.usage_consistent() {
            assert forall|i: int| 0 <= i < v.len() implies #[trigger] v[i].1.size == v[i].1.content@.len() by {
                assert(m.contains_key(v[i].0@) && m[v[i].0@] == v[i].1@);
                assert(m[v[i].0@].size == m[v[i].0@].content.len());
            }
            lemma_restored_usage(v);
        }
    }

    /// A copy of the file stored at `path`, or `NotFound` naming the path.
    pub fn metadata(&self, path: &VfsPath) -> (r: VfsResult<VfsFile>)
        ensures
            self.metadata_outcome(path@, r),
    {
        match store_get(&self.storage, path.as_str()) {
            Some(f) => Ok(f),
            None => Err(VfsError::NotFound { path: path.to_string() }),
        }
    }
}


impl Default for MemoryBackend {
    fn default() -> (r: Self)
        ensures
            r.inv(),
            r.usage_consistent(),
            r.files() == Map::<Seq<char>, FileView>::empty(),
            r.spec_limits() == ResourceLimits::spec_default(),
    {
        MemoryBackend::new()
    }
}

} // verus!
