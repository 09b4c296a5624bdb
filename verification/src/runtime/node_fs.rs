//! The synchronous `node:fs` operations, over an isolate's VFS.
//!
//! The VFS is a flat namespace: directories exist through the paths below
//! them, and an empty directory made by `mkdir` keeps a hidden marker file.

use vstd::prelude::*;
use vstd::string::StringExecFns;
use crate::text::{
    str_chars, str_eq, push_chars, string_from_chars, chars_lt, strictly_sorted, str_lt,
    lemma_lt_irreflexive, lemma_lt_transitive, lemma_lt_total,
};
use crate::vfs::types::{VfsError, VfsResult, VfsPath, VfsFile};
use crate::vfs::isolate::IsolateVfs;
use crate::vfs::memory::MemoryBackend;

verus! {

/// Name of the hidden marker file that keeps an empty directory.
pub const DIR_MARKER: &'static str = ".__nano_dir__";

/// One step of Node path normalization on the kept segments: empty and `.`
/// segments vanish, `..` drops the last kept segment (if any), any other
/// segment is kept.
pub open spec fn nn_flush(kept: Seq<Seq<char>>, seg: Seq<char>) -> Seq<Seq<char>> {
    if seg.len() == 0 || seg == seq!['.'] {
        kept
    } else if seg == seq!['.', '.'] {
        if kept.len() > 0 {
            kept.drop_last()
        } else {
            kept
        }
    } else {
        kept.push(seg)
    }
}

/// The kept segments and the current segment after reading `s`.
pub open spec fn nn_scan(s: Seq<char>) -> (Seq<Seq<char>>, Seq<char>)
    decreases s.len(),
{
    if s.len() == 0 {
        (Seq::empty(), Seq::empty())
    } else {
        let st = nn_scan(s.drop_last());
        if s.last() == '/' {
            (nn_flush(st.0, st.1), Seq::empty())
        } else {
            (st.0, st.1.push(s.last()))
        }
    }
}

/// Segments joined with `/`.
pub open spec fn join_segments(ss: Seq<Seq<char>>) -> Seq<char>
    decreases ss.len(),
{
    if ss.len() == 0 {
        Seq::empty()
    } else if ss.len() == 1 {
        ss[0]
    } else {
        join_segments(ss.drop_last()) + seq!['/'] + ss.last()
    }
}

/// The Node-style normal form of a path: `/` and the kept segments.
pub open spec fn node_norm(s: Seq<char>) -> Seq<char> {
    let st = nn_scan(s);
    seq!['/'] + join_segments(nn_flush(st.0, st.1))
}

/// Closes the current segment on concrete buffers.
fn flush_kept(kept: &mut Vec<Vec<char>>, seg: &mut Vec<char>)
    ensures
        final(kept)@.map_values(|v: Vec<char>| v@) == nn_flush(
            old(kept)@.map_values(|v: Vec<char>| v@),
            old(seg)@,
        ),
        final(seg)@ == Seq::<char>::empty(),
{
    let ghost before = kept@.map_values(|v: Vec<char>| v@);
    if seg.len() == 0 || (seg.len() == 1 && seg[0] == '.') {
        assert(seg.len() == 1 ==> seg@ =~= seq!['.']);
        proof {
            if seg.len() != 0 {
                assert(seg@ =~= seq!['.']);
            }
        }
    } else if seg.len() == 2 && seg[0] == '.' && seg[1] == '.' {
        assert(seg@ =~= seq!['.', '.']);
        if kept.len() > 0 {
            kept.pop();
            assert(kept@.map_values(|v: Vec<char>| v@) =~= before.drop_last());
        }
    } else {
        assert(seg@ != seq!['.']);
        assert(seg@ != seq!['.', '.']);
        let mut s: Vec<char> = Vec::new();
        std::mem::swap(&mut s, seg);
        let ghost sv = s@;
        kept.push(s);
        assert(kept@.map_values(|v: Vec<char>| v@) =~= before.push(sv));
    }
    seg.clear();
}

/// The Node-style normal form of `path`: `.` and empty segments dropped,
/// `..` removing the segment before it, and a leading `/`.
pub fn normalize(path: &str) -> (r: String)
    ensures
        r@ == node_norm(path@),
{
    let chars = str_chars(path);
    let mut kept: Vec<Vec<char>> = Vec::new();
    let mut seg: Vec<char> = Vec::new();
    let mut i: usize = 0;
    while i < chars.len()
        invariant
            i <= chars@.len(),
            chars@ == path@,
            (kept@.map_values(|v: Vec<char>| v@), seg@) == nn_scan(chars@.subrange(0, i as int)),
        decreases chars@.len() - i,
    {
        assert(chars@.subrange(0, i + 1).drop_last() =~= chars@.subrange(0, i as int));
        if chars[i] == '/' {
            flush_kept(&mut kept, &mut seg);
        } else {
            seg.push(chars[i]);
        }
        i = i + 1;
    }
    assert(chars@.subrange(0, chars@.len() as int) =~= chars@);
    flush_kept(&mut kept, &mut seg);
    let ghost ks = kept@.map_values(|v: Vec<char>| v@);
    let mut out: Vec<char> = Vec::new();
    out.push('/');
    let mut j: usize = 0;
    while j < kept.len()
        invariant
            j <= kept@.len(),
            ks == kept@.map_values(|v: Vec<char>| v@),
            out@ == seq!['/'] + join_segments(ks.subrange(0, j as int)),
        decreases kept@.len() - j,
    {
        assert(ks.subrange(0, j + 1).drop_last() =~= ks.subrange(0, j as int));
        if j > 0 {
            out.push('/');
        }
        push_chars(&mut out, kept[j].as_slice());
        proof {
            if j == 0 {
                assert(out@ =~= seq!['/'] + join_segments(ks.subrange(0, j + 1)));
            } else {
                assert(out@ =~= seq!['/'] + join_segments(ks.subrange(0, j + 1)));
            }
        }
        j = j + 1;
    }
    assert(ks.subrange(0, ks.len() as int) =~= ks);
    string_from_chars(out.as_slice())
}

/// Reading text without `/` extends the current segment.
proof fn lemma_nn_scan_no_slash(a: Seq<char>, b: Seq<char>)
    requires
        !b.contains('/'),
    ensures
        nn_scan(a + b) == (nn_scan(a).0, nn_scan(a).1 + b),
    decreases b.len(),
{
    if b.len() == 0 {
        assert(a + b =~= a);
        assert(nn_scan(a).1 + b =~= nn_scan(a).1);
    } else {
        let d = b.drop_last();
        assert(!d.contains('/')) by {
            if d.contains('/') {
                let i = choose|i: int| 0 <= i < d.len() && d[i] == '/';
                assert(b[i] == '/');
            }
        }
        lemma_nn_scan_no_slash(a, d);
        assert((a + b).drop_last() =~= a + d);
        assert((a + b).last() == b.last());
        assert(b[b.len() - 1] != '/');
        assert((nn_scan(a).1 + d).push(b.last()) =~= nn_scan(a).1 + b);
    }
}

/// Whether `s` is a plain path segment: not empty, without `/`, and neither
/// `.` nor `..`.
pub open spec fn plain_segment(s: Seq<char>) -> bool {
    s.len() > 0 && !s.contains('/') && s != seq!['.'] && s != seq!['.', '.']
}

/// `..` cancels the segment before it: normalizing `p/s/..` for a plain
/// segment `s` gives the normal form of `p`.
pub proof fn law_dot_dot_cancels_segment(p: Seq<char>, s: Seq<char>)
    requires
        plain_segment(s),
    ensures
        node_norm(p + seq!['/'] + s + seq!['/', '.', '.']) == node_norm(p),
{
    let dd = seq!['.', '.'];
    assert(!dd.contains('/')) by {
        if dd.contains('/') {
            let i = choose|i: int| 0 <= i < dd.len() && dd[i] == '/';
        }
    }
    let x1 = p.push('/');
    let x2 = x1 + s;
    let x3 = x2.push('/');
    let x4 = x3 + dd;
    assert(x1.drop_last() =~= p);
    let st = nn_scan(p);
    let k0 = nn_flush(st.0, st.1);
    assert(nn_scan(x1) == (k0, Seq::<char>::empty()));
    lemma_nn_scan_no_slash(x1, s);
    assert(Seq::<char>::empty() + s =~= s);
    assert(nn_scan(x2) == (k0, s));
    assert(x3.drop_last() =~= x2);
    assert(nn_scan(x3) == (k0.push(s), Seq::<char>::empty()));
    lemma_nn_scan_no_slash(x3, dd);
    assert(Seq::<char>::empty() + dd =~= dd);
    assert(nn_scan(x4) == (k0.push(s), dd));
    assert(k0.push(s).drop_last() =~= k0);
    assert(x4 =~= p + seq!['/'] + s + seq!['/', '.', '.']);
}

/// Whether every kept segment is non-empty.
pub open spec fn all_nonempty(kept: Seq<Seq<char>>) -> bool {
    forall|i: int| 0 <= i < kept.len() ==> #[trigger] kept[i].len() > 0
}

/// Closing a segment keeps only non-empty segments.
proof fn lemma_flush_kept_nonempty(kept: Seq<Seq<char>>, seg: Seq<char>)
    requires
        all_nonempty(kept),
    ensures
        all_nonempty(nn_flush(kept, seg)),
{
    let f = nn_flush(kept, seg);
    assert forall|i: int| 0 <= i < f.len() implies #[trigger] f[i].len() > 0 by {
        if seg.len() == 0 || seg == seq!['.'] {
        } else if seg == seq!['.', '.'] {
            if kept.len() > 0 {
                assert(f[i] == kept[i]);
            }
        } else {
            if i < kept.len() {
                assert(f[i] == kept[i]);
            }
        }
    }
}

/// The segments kept while reading are non-empty.
proof fn lemma_scan_kept_nonempty(s: Seq<char>)
    ensures
        all_nonempty(nn_scan(s).0),
    decreases s.len(),
{
    if s.len() > 0 {
        lemma_scan_kept_nonempty(s.drop_last());
        let st = nn_scan(s.drop_last());
        lemma_flush_kept_nonempty(st.0, st.1);
    }
}

/// Non-empty segments join to a non-empty text.
proof fn lemma_join_nonempty(kept: Seq<Seq<char>>)
    requires
        all_nonempty(kept),
        kept.len() > 0,
    ensures
        join_segments(kept).len() > 0,
{
    assert(kept[0].len() > 0);
}

/// A plain segment is appended: normalizing `p/s` gives the normal form of
/// `p` followed by `s`, after a `/` unless that normal form is the root.
pub proof fn law_plain_segment_appends(p: Seq<char>, s: Seq<char>)
    requires
        plain_segment(s),
    ensures
        node_norm(p) == seq!['/'] ==> node_norm(p + seq!['/'] + s) == seq!['/'] + s,
        node_norm(p) != seq!['/'] ==> node_norm(p + seq!['/'] + s) == node_norm(p) + seq!['/'] + s,
        node_norm(p)[0] == '/',
{
    let st = nn_scan(p);
    let k0 = nn_flush(st.0, st.1);
    let x1 = p.push('/');
    assert(x1.drop_last() =~= p);
    assert(nn_scan(x1) == (k0, Seq::<char>::empty()));
    lemma_nn_scan_no_slash(x1, s);
    assert(Seq::<char>::empty() + s =~= s);
    assert(x1 + s =~= p + seq!['/'] + s);
    assert(nn_flush(k0, s) == k0.push(s));
    let ks = k0.push(s);
    assert(ks.drop_last() =~= k0);
    if k0.len() == 0 {
        assert(join_segments(k0) =~= Seq::<char>::empty());
        assert(node_norm(p) =~= seq!['/']);
        assert(join_segments(ks) == s);
        assert(seq!['/'] + join_segments(ks) =~= seq!['/'] + s);
    } else {
        lemma_scan_kept_nonempty(p);
        lemma_flush_kept_nonempty(st.0, st.1);
        lemma_join_nonempty(k0);
        assert(node_norm(p).len() > 1);
        assert(node_norm(p) != seq!['/']);
        assert(seq!['/'] + (join_segments(k0) + seq!['/'] + s) =~= (seq!['/'] + join_segments(k0)) + seq!['/'] + s);
    }
}

/// `.` and empty segments vanish: normalizing `p/./` or `p//` gives the
/// normal form of `p`.
pub proof fn law_dot_segments_vanish(p: Seq<char>)
    ensures
        node_norm(p + seq!['/', '.', '/']) == node_norm(p),
        node_norm(p + seq!['/', '/']) == node_norm(p),
{
    let st = nn_scan(p);
    let k0 = nn_flush(st.0, st.1);
    let a = p.push('/');
    assert(a.drop_last() =~= p);
    assert(nn_scan(a) == (k0, Seq::<char>::empty()));
    let b = a.push('.');
    assert(b.drop_last() =~= a);
    assert(Seq::<char>::empty().push('.') =~= seq!['.']);
    assert(nn_scan(b) == (k0, seq!['.']));
    let c = b.push('/');
    assert(c.drop_last() =~= b);
    assert(nn_flush(k0, seq!['.']) == k0);
    assert(nn_scan(c) == (k0, Seq::<char>::empty()));
    assert(nn_flush(k0, Seq::<char>::empty()) == k0);
    assert(c =~= p + seq!['/', '.', '/']);
    let d = a.push('/');
    assert(d.drop_last() =~= a);
    assert(d =~= p + seq!['/', '/']);
}

/// The libuv errno of each code the fs and process hooks raise.
pub open spec fn errno_of(code: Seq<char>) -> Option<i32> {
    if code == "EPERM"@ {
        Some(-1i32)
    } else if code == "ENOENT"@ {
        Some(-2i32)
    } else if code == "EIO"@ {
        Some(-5i32)
    } else if code == "EACCES"@ {
        Some(-13i32)
    } else if code == "EEXIST"@ {
        Some(-17i32)
    } else if code == "ENOTDIR"@ {
        Some(-20i32)
    } else if code == "EISDIR"@ {
        Some(-21i32)
    } else if code == "EINVAL"@ {
        Some(-22i32)
    } else if code == "ENOSPC"@ {
        Some(-28i32)
    } else if code == "ENOSYS"@ {
        Some(-38i32)
    } else if code == "ENOTEMPTY"@ {
        Some(-39i32)
    } else if code == "ENOTFOUND"@ {
        Some(-3008i32)
    } else {
        None
    }
}

/// The libuv errno of `code`, where it has one.
pub fn errno_for_code(code: &str) -> (r: Option<i32>)
    ensures
        r == errno_of(code@),
{
    if str_eq(code, "EPERM") {
        Some(-1)
    } else if str_eq(code, "ENOENT") {
        Some(-2)
    } else if str_eq(code, "EIO") {
        Some(-5)
    } else if str_eq(code, "EACCES") {
        Some(-13)
    } else if str_eq(code, "EEXIST") {
        Some(-17)
    } else if str_eq(code, "ENOTDIR") {
        Some(-20)
    } else if str_eq(code, "EISDIR") {
        Some(-21)
    } else if str_eq(code, "EINVAL") {
        Some(-22)
    } else if str_eq(code, "ENOSPC") {
        Some(-28)
    } else if str_eq(code, "ENOSYS") {
        Some(-38)
    } else if str_eq(code, "ENOTEMPTY") {
        Some(-39)
    } else if str_eq(code, "ENOTFOUND") {
        Some(-3008)
    } else {
        None
    }
}

/// The Node code reported for each VFS error; quota errors read as a full
/// disk.
pub open spec fn node_code(e: VfsError) -> Seq<char> {
    match e {
        VfsError::NotFound { .. } => "ENOENT"@,
        VfsError::AlreadyExists { .. } => "EEXIST"@,
        VfsError::InvalidPath { .. } => "EINVAL"@,
        VfsError::PermissionDenied { .. } => "EACCES"@,
        VfsError::QuotaExceeded { .. } => "ENOSPC"@,
        VfsError::IoError(_) => "EIO"@,
    }
}

/// The Node code reported for a VFS error.
pub fn vfs_error_code(e: &VfsError) -> (r: &'static str)
    ensures
        r@ == node_code(*e),
{
    match e {
        VfsError::NotFound { .. } => "ENOENT",
        VfsError::AlreadyExists { .. } => "EEXIST",
        VfsError::InvalidPath { .. } => "EINVAL",
        VfsError::PermissionDenied { .. } => "EACCES",
        VfsError::QuotaExceeded { .. } => "ENOSPC",
        VfsError::IoError(_) => "EIO",
    }
}

/// An error thrown to scripts: its code, the system call and the path.
#[derive(Debug)]
pub struct FsError {
    pub code: String,
    pub syscall: String,
    pub path: String,
}

/// The message of an error: `CODE: syscall 'path'`.
pub open spec fn fs_message(code: Seq<char>, syscall: Seq<char>, path: Seq<char>) -> Seq<char> {
    code + ": "@ + syscall + " '"@ + path + "'"@
}

impl FsError {
    /// An error with the given code, call and path.
    pub fn new(code: &str, syscall: &str, path: &str) -> (r: FsError)
        ensures
            r.code@ == code@,
            r.syscall@ == syscall@,
            r.path@ == path@,
    {
        FsError { code: code.to_owned(), syscall: syscall.to_owned(), path: path.to_owned() }
    }

    /// The error's message.
    pub fn message(&self) -> (r: String)
        ensures
            r@ == fs_message(self.code@, self.syscall@, self.path@),
    {
        let mut m = self.code.clone();
        m.append(": ");
        m.append(self.syscall.as_str());
        m.append(" '");
        m.append(self.path.as_str());
        m.append("'");
        m
    }
}

/// Whether a file is stored at `path` in the isolate (an invalid path holds
/// none).
pub open spec fn file_at(vfs: IsolateVfs, path: Seq<char>) -> bool {
    vfs.key(path) matches Some(k) && vfs.store().files().contains_key(k)
}

/// Whether a file is stored at `path`.
pub fn file_exists(vfs: &IsolateVfs, path: &str) -> (r: bool)
    ensures
        r == file_at(*vfs, path@),
{
    match vfs.exists_path(path) {
        Ok(b) => b,
        Err(_) => false,
    }
}

/// The text after the last `/` of a path (all of it without `/`).
pub open spec fn last_seg(p: Seq<char>) -> Seq<char>
    decreases p.len(),
{
    if p.len() == 0 {
        p
    } else if p.last() == '/' {
        Seq::empty()
    } else {
        last_seg(p.drop_last()).push(p.last())
    }
}

/// Whether a listed name is shown: not empty and not the marker.
pub open spec fn shown_name(n: Seq<char>) -> bool {
    n.len() > 0 && n != DIR_MARKER@
}

/// The names `readdir` shows for directory key `k`: the last segments of
/// the child paths the backend lists, without the marker.
pub open spec fn node_children(store: MemoryBackend, k: Seq<char>) -> Set<Seq<char>> {
    Set::new(
        |n: Seq<char>|
            exists|p: Seq<char>| store.child_paths(k).contains(p) && #[trigger] last_seg(p) == n
                && shown_name(n),
    )
}

/// The last segment of a path.
fn last_segment(p: &str) -> (r: String)
    ensures
        r@ == last_seg(p@),
{
    let chars = str_chars(p);
    let mut start: usize = chars.len();
    assert(chars@.subrange(0, chars@.len() as int) =~= chars@);
    assert(last_seg(p@) + chars@.subrange(start as int, chars@.len() as int) =~= last_seg(p@));
    while start > 0 && chars[start - 1] != '/'
        invariant
            start <= chars@.len(),
            chars@ == p@,
            last_seg(p@) == last_seg(chars@.subrange(0, start as int)) + chars@.subrange(
                start as int,
                chars@.len() as int,
            ),
        decreases start,
    {
        proof {
            let pre = chars@.subrange(0, start as int);
            assert(pre.drop_last() =~= chars@.subrange(0, start - 1));
            assert(chars@.subrange(start - 1, chars@.len() as int) =~= seq![pre.last()]
                + chars@.subrange(start as int, chars@.len() as int));
            assert(last_seg(pre) == last_seg(pre.drop_last()).push(pre.last()));
            assert(last_seg(pre.drop_last()).push(pre.last()) + chars@.subrange(
                start as int,
                chars@.len() as int,
            ) =~= last_seg(pre.drop_last()) + chars@.subrange(start - 1, chars@.len() as int));
        }
        start = start - 1;
    }
    proof {
        assert(chars@.subrange(0, chars@.len() as int) =~= chars@);
        assert(Seq::<char>::empty() + chars@.subrange(start as int, chars@.len() as int)
            =~= chars@.subrange(start as int, chars@.len() as int));
    }
    let tail = crate::text::chars_slice(chars.as_slice(), start, chars.len());
    string_from_chars(tail.as_slice())
}

/// The views of a list of strings.
pub open spec fn names_view(v: Seq<String>) -> Seq<Seq<char>> {
    v.map_values(|s: String| s@)
}

/// Inserts `name` into a strictly sorted list, unless it is there.
fn insert_sorted(names: &mut Vec<String>, name: String)
    requires
        strictly_sorted(names_view(old(names)@)),
    ensures
        strictly_sorted(names_view(final(names)@)),
        names_view(final(names)@).to_set() == names_view(old(names)@).to_set().insert(name@),
{
    let ghost v = names_view(names@);
    let mut i: usize = 0;
    while i < names.len() && str_lt(names[i].as_str(), name.as_str())
        invariant
            i <= names@.len(),
            v == names_view(names@),
            strictly_sorted(v),
            forall|j: int| 0 <= j < i ==> chars_lt(#[trigger] v[j], name@),
        decreases names@.len() - i,
    {
        i = i + 1;
    }
    if i < names.len() && str_eq(names[i].as_str(), name.as_str()) {
        assert(v.to_set().insert(name@) =~= v.to_set()) by {
            assert(v[i as int] == name@);
        }
        return;
    }
    let ghost nv = name@;
    names.insert(i, name);
    proof {
        let w = names_view(names@);
        assert(w =~= v.insert(i as int, nv));
        if i < v.len() {
            assert(!chars_lt(v[i as int], nv));
            assert(v[i as int] != nv);
            lemma_lt_total(v[i as int], nv);
        }
        assert forall|a: int, b: int| 0 <= a < b < w.len() implies chars_lt(#[trigger] w[a], #[trigger] w[b]) by {
            if b < i {
            } else if a < i && b == i {
            } else if a < i && b > i {
                lemma_lt_transitive(w[a], nv, v[i as int]);
                if b - 1 > i {
                    lemma_lt_transitive(w[a], v[i as int], w[b]);
                }
            } else if a == i {
                if b - 1 > i {
                    lemma_lt_transitive(nv, v[i as int], w[b]);
                }
            } else {
                assert(w[a] == v[a - 1]);
                assert(w[b] == v[b - 1]);
            }
        }
        assert(w.to_set() =~= v.to_set().insert(nv)) by {
            assert forall|x: Seq<char>| w.to_set().contains(x) <==> v.to_set().insert(nv).contains(x) by {
                if w.to_set().contains(x) {
                    let t = choose|t: int| 0 <= t < w.len() && w[t] == x;
                    if t < i {
                        assert(v[t] == x);
                    } else if t > i {
                        assert(v[t - 1] == x);
                    }
                }
                if v.to_set().contains(x) {
                    let t = choose|t: int| 0 <= t < v.len() && v[t] == x;
                    if t < i {
                        assert(w[t] == x);
                    } else {
                        assert(w[t + 1] == x);
                    }
                }
                if x == nv {
                    assert(w[i as int] == x);
                }
            }
        }
    }
}

/// The names shown by `readdir` for `path`, sorted, each once: the last
/// segments of the child paths the backend lists, without the marker.
pub fn list_children(vfs: &IsolateVfs, path: &str) -> (r: VfsResult<Vec<String>>)
    ensures
        match vfs.key(path@) {
            Some(k) => r matches Ok(names) && strictly_sorted(names_view(names@)) && names_view(
                names@,
            ).to_set() == node_children(vfs.store(), k),
            None => r matches Err(e) && e is InvalidPath,
        },
{
    let entries = vfs.list_dir(path)?;
    let ghost k = vfs.key(path@)->0;
    let ghost store = vfs.store();
    let ghost ev = entries@;
    let mut names: Vec<String> = Vec::new();
    let mut i: usize = 0;
    while i < entries.len()
        invariant
            i <= entries@.len(),
            ev == entries@,
            strictly_sorted(names_view(names@)),
            names_view(names@).to_set() == Set::new(
                |n: Seq<char>|
                    exists|t: int| 0 <= t < i && #[trigger] last_seg(ev[t]@) == n && shown_name(n),
            ),
        decreases entries@.len() - i,
    {
        let name = last_segment(entries[i].as_str());
        let ghost before = names_view(names@).to_set();
        if !name.as_str().is_empty() && !str_eq(name.as_str(), DIR_MARKER) {
            insert_sorted(&mut names, name);
        }
        proof {
            let next = Set::new(
                |n: Seq<char>|
                    exists|t: int| 0 <= t < i + 1 && #[trigger] last_seg(ev[t]@) == n && shown_name(n),
            );
            assert forall|n: Seq<char>| names_view(names@).to_set().contains(n) <==> next.contains(n) by {
                if next.contains(n) {
                    let t = choose|t: int| 0 <= t < i + 1 && #[trigger] last_seg(ev[t]@) == n && shown_name(n);
                    if t < i {
                        assert(before.contains(n));
                    }
                }
            }
            assert(names_view(names@).to_set() =~= next);
        }
        i = i + 1;
    }
    proof {
        let listed = Set::new(
            |n: Seq<char>|
                exists|t: int| 0 <= t < ev.len() && #[trigger] last_seg(ev[t]@) == n && shown_name(n),
        );
        assert forall|n: Seq<char>| listed.contains(n) <==> node_children(store, k).contains(n) by {
            if listed.contains(n) {
                let t = choose|t: int| 0 <= t < ev.len() && #[trigger] last_seg(ev[t]@) == n && shown_name(n);
                assert(store.child_paths(k).contains(ev[t]@));
            }
            if node_children(store, k).contains(n) {
                let p = choose|p: Seq<char>| store.child_paths(k).contains(p) && #[trigger] last_seg(p) == n
                    && shown_name(n);
                let c = choose|c: Seq<char>|
                    store.children(k).contains(c) && #[trigger] crate::vfs::memory::joins_child(
                        p,
                        crate::vfs::memory::dir_prefix(k),
                        c,
                    );
                let t = choose|t: int|
                    0 <= t < ev.len() && crate::vfs::memory::joins_child(
                        #[trigger] ev[t]@,
                        crate::vfs::memory::dir_prefix(k),
                        c,
                    );
                assert(ev[t]@ == p);
            }
        }
        assert(names_view(names@).to_set() =~= node_children(store, k));
    }
    Ok(names)
}

/// The path of the marker file of directory `path`.
pub open spec fn marker_path(path: Seq<char>) -> Seq<char> {
    path + seq!['/'] + DIR_MARKER@
}

/// Whether `path` is a directory: the root, a directory with a marker, or
/// one with shown children.
pub open spec fn dir_at(vfs: IsolateVfs, path: Seq<char>) -> bool {
    ||| path == seq!['/']
    ||| file_at(vfs, marker_path(path))
    ||| (vfs.key(path) matches Some(k) && !node_children(vfs.store(), k).is_empty())
}

/// The marker path of directory `path`.
fn marker_of(path: &str) -> (r: String)
    ensures
        r@ == marker_path(path@),
{
    let mut m = path.to_owned();
    m.append("/");
    m.append(DIR_MARKER);
    proof {
        reveal_strlit("/");
        assert("/"@ =~= seq!['/']);
    }
    m
}

/// Whether `path` is a directory.
pub fn dir_exists(vfs: &IsolateVfs, path: &str) -> (r: bool)
    ensures
        r == dir_at(*vfs, path@),
{
    if str_eq(path, "/") {
        proof {
            reveal_strlit("/");
            assert("/"@ =~= seq!['/']);
        }
        return true;
    }
    proof {
        reveal_strlit("/");
        assert("/"@ =~= seq!['/']);
    }
    let marker = marker_of(path);
    if file_exists(vfs, marker.as_str()) {
        return true;
    }
    match list_children(vfs, path) {
        Ok(names) => {
            proof {
                let v = names_view(names@);
                if v.len() > 0 {
                    assert(v.to_set().contains(v[0]));
                } else {
                    assert(v.to_set() =~= Set::<Seq<char>>::empty());
                }
            }
            names.len() > 0
        },
        Err(_) => false,
    }
}

/// Whether `e` carries the given code, system call and path.
pub open spec fn err_is(e: FsError, code: Seq<char>, syscall: Seq<char>, path: Seq<char>) -> bool {
    e.code@ == code && e.syscall@ == syscall && e.path@ == path
}

/// The error thrown for a VFS error.
fn to_fs_error(e: VfsError, syscall: &str, path: &str) -> (r: FsError)
    ensures
        err_is(r, node_code(e), syscall@, path@),
{
    FsError::new(vfs_error_code(&e), syscall, path)
}

/// What reading `p` gives: the stored bytes, `ENOENT` for a missing file,
/// `EINVAL` for a refused path; all with system call `syscall`.
pub open spec fn read_done(vfs: IsolateVfs, p: Seq<char>, r: Result<Vec<u8>, FsError>, syscall: Seq<char>) -> bool {
    match vfs.key(p) {
        Some(k) => if vfs.store().files().contains_key(k) {
            r matches Ok(c) && c@ == vfs.store().files()[k].content
        } else {
            r matches Err(e) && err_is(e, "ENOENT"@, syscall, p)
        },
        None => r matches Err(e) && err_is(e, "EINVAL"@, syscall, p),
    }
}

/// What writing `data` at `p` does: a quota refusal answers `ENOSPC` and
/// changes nothing, a refused path answers `EINVAL`, otherwise the write
/// takes effect; errors name the path `ep`.
pub open spec fn write_done(a: IsolateVfs, p: Seq<char>, data: Seq<u8>, r: Result<(), FsError>, b: IsolateVfs, syscall: Seq<char>, ep: Seq<char>) -> bool {
    match a.key(p) {
        Some(k) => match a.store().write_refusal(k, data.len()) {
            Some(_) => (r matches Err(e) && err_is(e, "ENOSPC"@, syscall, ep)) && MemoryBackend::same_state(
                &a.store(),
                &b.store(),
            ),
            None => r is Ok && MemoryBackend::write_effect(&a.store(), k, data, &b.store()),
        },
        None => (r matches Err(e) && err_is(e, "EINVAL"@, syscall, ep)) && b.store() == a.store(),
    }
}

/// What deleting `p` does: `ENOENT` for a missing file and `EINVAL` for a
/// refused path, changing nothing; otherwise the file is removed.
pub open spec fn delete_done(a: IsolateVfs, p: Seq<char>, r: Result<(), FsError>, b: IsolateVfs, syscall: Seq<char>, ep: Seq<char>) -> bool {
    match a.key(p) {
        Some(k) => if a.store().files().contains_key(k) {
            r is Ok && MemoryBackend::delete_effect(&a.store(), k, &b.store())
        } else {
            (r matches Err(e) && err_is(e, "ENOENT"@, syscall, ep)) && MemoryBackend::same_state(
                &a.store(),
                &b.store(),
            )
        },
        None => (r matches Err(e) && err_is(e, "EINVAL"@, syscall, ep)) && b.store() == a.store(),
    }
}

/// Whether a write of `len` bytes at `p` keeps the backend's arithmetic in
/// range.
pub open spec fn write_ok(vfs: IsolateVfs, p: Seq<char>, len: nat) -> bool {
    vfs.key(p) matches Some(k) ==> vfs.store().write_fits(k, len)
}

/// Reads `p` (already normalized) through the VFS.
fn read_at(vfs: &IsolateVfs, p: &str, syscall: &str) -> (r: Result<Vec<u8>, FsError>)
    ensures
        read_done(*vfs, p@, r, syscall@),
{
    match vfs.read(p) {
        Ok(c) => Ok(c),
        Err(e) => Err(to_fs_error(e, syscall, p)),
    }
}

/// Writes `data` at `p` (already normalized) through the VFS.
fn write_at(vfs: &mut IsolateVfs, p: &str, data: &[u8], syscall: &str, ep: &str) -> (r: Result<(), FsError>)
    requires
        old(vfs).store().inv(),
        write_ok(*old(vfs), p@, data@.len()),
    ensures
        final(vfs).store().inv(),
        final(vfs).ns() == old(vfs).ns(),
        write_done(*old(vfs), p@, data@, r, *final(vfs), syscall@, ep@),
{
    match vfs.write(p, data) {
        Ok(()) => Ok(()),
        Err(e) => Err(to_fs_error(e, syscall, ep)),
    }
}

/// Deletes `p` (already normalized) through the VFS.
fn delete_at(vfs: &mut IsolateVfs, p: &str, syscall: &str, ep: &str) -> (r: Result<(), FsError>)
    requires
        old(vfs).store().inv(),
    ensures
        final(vfs).store().inv(),
        final(vfs).ns() == old(vfs).ns(),
        delete_done(*old(vfs), p@, r, *final(vfs), syscall@, ep@),
{
    match vfs.delete(p) {
        Ok(()) => Ok(()),
        Err(e) => Err(to_fs_error(e, syscall, ep)),
    }
}

/// `fs.readFileSync`: the bytes of the file at the normalized path.
pub fn fs_read_file(vfs: &IsolateVfs, path: &str) -> (r: Result<Vec<u8>, FsError>)
    ensures
        read_done(*vfs, node_norm(path@), r, "open"@),
{
    let p = normalize(path);
    read_at(vfs, p.as_str(), "open")
}

/// `fs.writeFileSync`: refuses a directory with `EISDIR`, else writes.
pub fn fs_write_file(vfs: &mut IsolateVfs, path: &str, data: &[u8]) -> (r: Result<(), FsError>)
    requires
        old(vfs).store().inv(),
        write_ok(*old(vfs), node_norm(path@), data@.len()),
    ensures
        final(vfs).store().inv(),
        final(vfs).ns() == old(vfs).ns(),
        ({
            let p = node_norm(path@);
            if dir_at(*old(vfs), p) {
                (r matches Err(e) && err_is(e, "EISDIR"@, "open"@, p)) && *final(vfs) == *old(vfs)
            } else {
                write_done(*old(vfs), p, data@, r, *final(vfs), "open"@, p)
            }
        }),
{
    let p = normalize(path);
    if dir_exists(vfs, p.as_str()) {
        return Err(FsError::new("EISDIR", "open", p.as_str()));
    }
    write_at(vfs, p.as_str(), data, "open", p.as_str())
}

/// `fs.existsSync`: whether a file or a directory is at the normalized
/// path.
pub fn fs_exists(vfs: &IsolateVfs, path: &str) -> (r: bool)
    ensures
        r == (file_at(*vfs, node_norm(path@)) || dir_at(*vfs, node_norm(path@))),
{
    let p = normalize(path);
    file_exists(vfs, p.as_str()) || dir_exists(vfs, p.as_str())
}

/// `fs.unlinkSync`: removes a file; a directory gives `EISDIR`, nothing
/// there `ENOENT`.
pub fn fs_unlink(vfs: &mut IsolateVfs, path: &str) -> (r: Result<(), FsError>)
    requires
        old(vfs).store().inv(),
    ensures
        final(vfs).store().inv(),
        final(vfs).ns() == old(vfs).ns(),
        ({
            let p = node_norm(path@);
            if !file_at(*old(vfs), p) {
                (if dir_at(*old(vfs), p) {
                    r matches Err(e) && err_is(e, "EISDIR"@, "unlink"@, p)
                } else {
                    r matches Err(e) && err_is(e, "ENOENT"@, "unlink"@, p)
                }) && *final(vfs) == *old(vfs)
            } else {
                delete_done(*old(vfs), p, r, *final(vfs), "unlink"@, p)
            }
        }),
{
    let p = normalize(path);
    if !file_exists(vfs, p.as_str()) {
        if dir_exists(vfs, p.as_str()) {
            return Err(FsError::new("EISDIR", "unlink", p.as_str()));
        }
        return Err(FsError::new("ENOENT", "unlink", p.as_str()));
    }
    delete_at(vfs, p.as_str(), "unlink", p.as_str())
}

/// The parent directory of a normalized path: the part before the last
/// `/`, or `/` when that part is empty or there is no `/`.
pub open spec fn parent_of(p: Seq<char>) -> Seq<char> {
    if exists|i: int| 0 <= i < p.len() && p[i] == '/' {
        let i = choose|i: int|
            0 <= i < p.len() && p[i] == '/' && forall|j: int| i < j < p.len() ==> p[j] != '/';
        if i == 0 {
            seq!['/']
        } else {
            p.subrange(0, i)
        }
    } else {
        seq!['/']
    }
}

/// The parent directory of a path.
fn parent_path(p: &str) -> (r: String)
    ensures
        r@ == parent_of(p@),
{
    let chars = str_chars(p);
    let mut i: usize = chars.len();
    while i > 0 && chars[i - 1] != '/'
        invariant
            i <= chars@.len(),
            chars@ == p@,
            forall|j: int| i <= j < chars@.len() ==> chars@[j] != '/',
        decreases i,
    {
        i = i - 1;
    }
    proof {
        reveal_strlit("/");
        assert("/"@ =~= seq!['/']);
    }
    if i == 0 {
        assert(!exists|t: int| 0 <= t < p@.len() && p@[t] == '/');
        return String::from_str("/");
    }
    let idx = i - 1;
    proof {
        assert(chars@[idx as int] == '/');
        let c = choose|t: int|
            0 <= t < p@.len() && p@[t] == '/' && forall|j: int| t < j < p@.len() ==> p@[j] != '/';
        assert(c == idx as int) by {
            if c < idx as int {
                assert(p@[idx as int] == '/');
            }
            if c > idx as int {
                assert(p@[c] != '/');
            }
        }
    }
    if idx == 0 {
        return String::from_str("/");
    }
    let head = crate::text::chars_slice(chars.as_slice(), 0, idx);
    string_from_chars(head.as_slice())
}

/// `fs.mkdirSync`: makes a directory by writing its marker. A file there
/// gives `EEXIST`; an existing directory gives `EEXIST` unless
/// `recursive`; without `recursive` the parent must be a directory
/// (`ENOTDIR` for a file, `ENOENT` for nothing).
#[verifier::rlimit(40)]
pub fn fs_mkdir(vfs: &mut IsolateVfs, path: &str, recursive: bool) -> (r: Result<(), FsError>)
    requires
        old(vfs).store().inv(),
        write_ok(*old(vfs), marker_path(node_norm(path@)), 0),
    ensures
        final(vfs).store().inv(),
        final(vfs).ns() == old(vfs).ns(),
        ({
            let p = node_norm(path@);
            let parent = parent_of(p);
            if file_at(*old(vfs), p) {
                (r matches Err(e) && err_is(e, "EEXIST"@, "mkdir"@, p)) && *final(vfs) == *old(vfs)
            } else if dir_at(*old(vfs), p) {
                (if recursive {
                    r is Ok
                } else {
                    r matches Err(e) && err_is(e, "EEXIST"@, "mkdir"@, p)
                }) && *final(vfs) == *old(vfs)
            } else if !recursive && file_at(*old(vfs), parent) {
                (r matches Err(e) && err_is(e, "ENOTDIR"@, "mkdir"@, p)) && *final(vfs) == *old(vfs)
            } else if !recursive && !dir_at(*old(vfs), parent) {
                (r matches Err(e) && err_is(e, "ENOENT"@, "mkdir"@, p)) && *final(vfs) == *old(vfs)
            } else {
                write_done(*old(vfs), marker_path(p), Seq::empty(), r, *final(vfs), "mkdir"@, p)
            }
        }),
{
    let p = normalize(path);
    if file_exists(vfs, p.as_str()) {
        return Err(FsError::new("EEXIST", "mkdir", p.as_str()));
    }
    if dir_exists(vfs, p.as_str()) {
        if recursive {
            return Ok(());
        }
        return Err(FsError::new("EEXIST", "mkdir", p.as_str()));
    }
    if !recursive {
        let parent = parent_path(p.as_str());
        if file_exists(vfs, parent.as_str()) {
            return Err(FsError::new("ENOTDIR", "mkdir", p.as_str()));
        }
        if !dir_exists(vfs, parent.as_str()) {
            return Err(FsError::new("ENOENT", "mkdir", p.as_str()));
        }
    }
    let marker = marker_of(p.as_str());
    let empty: [u8; 0] = [];
    assert(empty@ =~= Seq::<u8>::empty());
    write_at(vfs, marker.as_str(), &empty, "mkdir", p.as_str())
}

/// `fs.rmdirSync`: removes an empty directory (its marker, if any). A file
/// gives `ENOTDIR`, nothing there `ENOENT`, shown children `ENOTEMPTY`.
#[verifier::rlimit(40)]
pub fn fs_rmdir(vfs: &mut IsolateVfs, path: &str) -> (r: Result<(), FsError>)
    requires
        old(vfs).store().inv(),
    ensures
        final(vfs).store().inv(),
        final(vfs).ns() == old(vfs).ns(),
        ({
            let p = node_norm(path@);
            if file_at(*old(vfs), p) {
                (r matches Err(e) && err_is(e, "ENOTDIR"@, "rmdir"@, p)) && *final(vfs) == *old(vfs)
            } else if !dir_at(*old(vfs), p) {
                (r matches Err(e) && err_is(e, "ENOENT"@, "rmdir"@, p)) && *final(vfs) == *old(vfs)
            } else {
                match old(vfs).key(p) {
                    None => (r matches Err(e) && err_is(e, "EINVAL"@, "rmdir"@, p)) && *final(vfs)
                        == *old(vfs),
                    Some(k) => if !node_children(old(vfs).store(), k).is_empty() {
                        (r matches Err(e) && err_is(e, "ENOTEMPTY"@, "rmdir"@, p)) && *final(vfs)
                            == *old(vfs)
                    } else if file_at(*old(vfs), marker_path(p)) {
                        delete_done(*old(vfs), marker_path(p), r, *final(vfs), "rmdir"@, p)
                    } else {
                        r is Ok && *final(vfs) == *old(vfs)
                    },
                }
            }
        }),
{
    let p = normalize(path);
    if file_exists(vfs, p.as_str()) {
        return Err(FsError::new("ENOTDIR", "rmdir", p.as_str()));
    }
    if !dir_exists(vfs, p.as_str()) {
        return Err(FsError::new("ENOENT", "rmdir", p.as_str()));
    }
    match list_children(vfs, p.as_str()) {
        Ok(names) => {
            if names.len() > 0 {
                proof {
                    assert(names_view(names@).to_set().contains(names_view(names@)[0]));
                }
                return Err(FsError::new("ENOTEMPTY", "rmdir", p.as_str()));
            }
            proof {
                assert(names_view(names@).to_set() =~= Set::<Seq<char>>::empty());
            }
            let marker = marker_of(p.as_str());
            if file_exists(vfs, marker.as_str()) {
                delete_at(vfs, marker.as_str(), "rmdir", p.as_str())
            } else {
                Ok(())
            }
        },
        Err(e) => Err(to_fs_error(e, "rmdir", p.as_str())),
    }
}

/// `fs.readdirSync`: the shown names of a directory, sorted, each once. A
/// file gives `ENOTDIR`, nothing there `ENOENT`.
pub fn fs_readdir(vfs: &IsolateVfs, path: &str) -> (r: Result<Vec<String>, FsError>)
    ensures
        ({
            let p = node_norm(path@);
            if file_at(*vfs, p) {
                r matches Err(e) && err_is(e, "ENOTDIR"@, "scandir"@, p)
            } else if !dir_at(*vfs, p) {
                r matches Err(e) && err_is(e, "ENOENT"@, "scandir"@, p)
            } else {
                match vfs.key(p) {
                    Some(k) => r matches Ok(names) && strictly_sorted(names_view(names@))
                        && names_view(names@).to_set() == node_children(vfs.store(), k),
                    None => r matches Err(e) && err_is(e, "EINVAL"@, "scandir"@, p),
                }
            }
        }),
{
    let p = normalize(path);
    if file_exists(vfs, p.as_str()) {
        return Err(FsError::new("ENOTDIR", "scandir", p.as_str()));
    }
    if !dir_exists(vfs, p.as_str()) {
        return Err(FsError::new("ENOENT", "scandir", p.as_str()));
    }
    match list_children(vfs, p.as_str()) {
        Ok(names) => Ok(names),
        Err(e) => Err(to_fs_error(e, "scandir", p.as_str())),
    }
}

/// What `fs.statSync` reports.
#[derive(Debug)]
pub struct FsStat {
    /// Size in bytes (0 for a directory).
    pub size: usize,
    /// Modification time, milliseconds since the Unix epoch (0 for a
    /// directory).
    pub mtime_ms: u64,
    /// Creation time, milliseconds since the Unix epoch (0 for a
    /// directory).
    pub birthtime_ms: u64,
    /// Whether it is a file; otherwise a directory.
    pub is_file: bool,
}

/// `fs.statSync`: size and times of a file, or a directory; `ENOENT` for
/// nothing there.
pub fn fs_stat(vfs: &IsolateVfs, path: &str) -> (r: Result<FsStat, FsError>)
    ensures
        ({
            let p = node_norm(path@);
            if file_at(*vfs, p) {
                let f = vfs.store().files()[vfs.key(p)->0];
                r matches Ok(st) && st.is_file && st.size == f.size && st.mtime_ms == f.modified_at
                    / 1000000 && st.birthtime_ms == f.created_at / 1000000
            } else if dir_at(*vfs, p) {
                r matches Ok(st) && !st.is_file && st.size == 0 && st.mtime_ms == 0 && st.birthtime_ms
                    == 0
            } else {
                r matches Err(e) && err_is(e, "ENOENT"@, "stat"@, p)
            }
        }),
{
    let p = normalize(path);
    if file_exists(vfs, p.as_str()) {
        return match vfs.metadata(p.as_str()) {
            Ok(meta) => Ok(
                FsStat {
                    size: meta.size,
                    mtime_ms: meta.modified_at / 1000000,
                    birthtime_ms: meta.created_at / 1000000,
                    is_file: true,
                },
            ),
            Err(e) => Err(to_fs_error(e, "stat", p.as_str())),
        };
    }
    if dir_exists(vfs, p.as_str()) {
        return Ok(FsStat { size: 0, mtime_ms: 0, birthtime_ms: 0, is_file: false });
    }
    Err(FsError::new("ENOENT", "stat", p.as_str()))
}

/// The content stored at `p`, where a file is there.
pub open spec fn content_at(vfs: IsolateVfs, p: Seq<char>) -> Seq<u8> {
    vfs.store().files()[vfs.key(p)->0].content
}

/// `fs.copyFileSync`: reads the source and writes it to the destination;
/// errors name the source.
pub fn fs_copy_file(vfs: &mut IsolateVfs, from: &str, to: &str) -> (r: Result<(), FsError>)
    requires
        old(vfs).store().inv(),
        file_at(*old(vfs), node_norm(from@)) ==> write_ok(
            *old(vfs),
            node_norm(to@),
            content_at(*old(vfs), node_norm(from@)).len(),
        ),
    ensures
        final(vfs).store().inv(),
        final(vfs).ns() == old(vfs).ns(),
        ({
            let f = node_norm(from@);
            let t = node_norm(to@);
            if file_at(*old(vfs), f) {
                write_done(*old(vfs), t, content_at(*old(vfs), f), r, *final(vfs), "copyfile"@, f)
            } else {
                read_done(*old(vfs), f, Err(r->Err_0), "copyfile"@) && r is Err && *final(vfs)
                    == *old(vfs)
            }
        }),
{
    let f = normalize(from);
    let t = normalize(to);
    let data = read_at(vfs, f.as_str(), "copyfile")?;
    write_at(vfs, t.as_str(), data.as_slice(), "copyfile", f.as_str())
}

/// `fs.renameSync`: reads the source, writes it to the destination, then
/// deletes the source; errors name the source, and a failed step leaves
/// the steps before it in place.
pub fn fs_rename(vfs: &mut IsolateVfs, from: &str, to: &str) -> (r: Result<(), FsError>)
    requires
        old(vfs).store().inv(),
        file_at(*old(vfs), node_norm(from@)) ==> write_ok(
            *old(vfs),
            node_norm(to@),
            content_at(*old(vfs), node_norm(from@)).len(),
        ),
    ensures
        final(vfs).store().inv(),
        final(vfs).ns() == old(vfs).ns(),
        ({
            let f = node_norm(from@);
            let t = node_norm(to@);
            if file_at(*old(vfs), f) {
                exists|mid: IsolateVfs, w: Result<(), FsError>|
                    write_done(*old(vfs), t, content_at(*old(vfs), f), w, mid, "rename"@, f) && mid.ns()
                        == old(vfs).ns() && if w is Ok {
                        delete_done(mid, f, r, *final(vfs), "rename"@, f)
                    } else {
                        r == w && *final(vfs) == mid
                    }
            } else {
                read_done(*old(vfs), f, Err(r->Err_0), "rename"@) && r is Err && *final(vfs)
                    == *old(vfs)
            }
        }),
{
    let f = normalize(from);
    let t = normalize(to);
    let data = read_at(vfs, f.as_str(), "rename")?;
    let ghost before = *vfs;
    let w = write_at(vfs, t.as_str(), data.as_slice(), "rename", f.as_str());
    let ghost mid = *vfs;
    match w {
        Ok(()) => {
            let r = delete_at(vfs, f.as_str(), "rename", f.as_str());
            assert(write_done(before, t@, data@, w, mid, "rename"@, f@));
            r
        },
        Err(e) => Err(e),
    }
}

} // verus!
