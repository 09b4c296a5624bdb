//! Per-isolate VFS: a namespace derived from the application hostname, and a
//! view of a backend in which every path is stored under that namespace.

use vstd::prelude::*;
use crate::text::{push_chars, str_chars, string_from_chars, all_ascii, ascii_lower};
use crate::vfs::memory::MemoryBackend;
use crate::vfs::types::{normalize_path, seq_accepted, VfsError, VfsFile, VfsPath, VfsResult, NormState, norm_scan, norm_step, norm_flush, dot, dot_dot, norm_scan_from, lemma_scan_append, lemma_scan_no_slash};
use crate::text::seq_starts_with;

verus! {

/// What `str::to_lowercase` makes of a string: each character replaced by its
/// Unicode lowercase mapping.
pub uninterp spec fn lowercase_of(s: Seq<char>) -> Seq<char>;

/// What lowercasing makes of `s`: on ASCII text, `A`..`Z` made lowercase.
pub open spec fn lower_text(s: Seq<char>) -> Seq<char> {
    if all_ascii(s) {
        ascii_lower(s)
    } else {
        lowercase_of(s)
    }
}

/// `str::to_lowercase`: the Unicode lowercase of `s`; on ASCII text it
/// makes `A`..`Z` lowercase and keeps every other character.
#[verifier::external_body]
fn lowercase(s: &str) -> (r: String)
    ensures
        r@ == lowercase_of(s@),
        all_ascii(s@) ==> r@ == ascii_lower(s@),
{
    s.to_lowercase()
}

/// `.` and `-` become `_`; other characters stay.
pub open spec fn sanitize_char(c: char) -> char {
    if c == '.' || c == '-' {
        '_'
    } else {
        c
    }
}

/// The namespace of a hostname: lowercased, with `.` and `-` replaced by `_`.
pub open spec fn namespace_of(hostname: Seq<char>) -> Seq<char> {
    lower_text(hostname).map_values(|c: char| sanitize_char(c))
}

/// The separator between a namespace and a path in a storage key.
pub open spec fn ns_sep() -> Seq<char> {
    seq![':', ':']
}

/// The characters `ns`, then `::`, then `p`.
pub fn join_namespace(ns: &str, p: &str) -> (r: String)
    ensures
        r@ == ns@ + ns_sep() + p@,
{
    let mut v = str_chars(ns);
    v.push(':');
    v.push(':');
    let pc = str_chars(p);
    push_chars(&mut v, pc.as_slice());
    assert(v@ =~= ns@ + ns_sep() + p@);
    string_from_chars(v.as_slice())
}

/// The namespace that isolates one application's files.
pub struct VfsNamespace {
    name: String,
}

impl View for VfsNamespace {
    type V = Seq<char>;

    closed spec fn view(&self) -> Seq<char> {
        self.name@
    }
}

impl VfsNamespace {
    /// The namespace of an application hostname.
    pub fn from_hostname(hostname: &str) -> (r: VfsNamespace)
        ensures
            r@ == namespace_of(hostname@),
    {
        let lower = lowercase(hostname);
        let chars = str_chars(lower.as_str());
        let mut out: Vec<char> = Vec::new();
        let mut i: usize = 0;
        while i < chars.len()
            invariant
                i <= chars@.len(),
                chars@ == lower_text(hostname@),
                out@ == chars@.subrange(0, i as int).map_values(|c: char| sanitize_char(c)),
            decreases chars@.len() - i,
        {
            let c = chars[i];
            if c == '.' || c == '-' {
                out.push('_');
            } else {
                out.push(c);
            }
            i = i + 1;
            assert(out@ =~= chars@.subrange(0, i as int).map_values(|c: char| sanitize_char(c)));
        }
        assert(chars@.subrange(0, chars@.len() as int) =~= chars@);
        VfsNamespace { name: string_from_chars(out.as_slice()) }
    }

    /// The namespace text.
    pub fn as_str(&self) -> (r: &str)
        ensures
            r@ == self@,
    {
        self.name.as_str()
    }

    /// The namespace text, as an owned string.
    pub fn to_string(&self) -> (r: String)
        ensures
            r@ == self@,
    {
        self.name.clone()
    }
}

impl Clone for VfsNamespace {
    fn clone(&self) -> (r: Self)
        ensures
            r@ == self@,
    {
        VfsNamespace { name: self.name.clone() }
    }
}

/// The storage key of `path` in namespace `ns`: the normalized path, prefixed
/// by `ns::` when `ns` is not empty and normalized again; `None` when either
/// step is refused.
pub open spec fn isolate_key(ns: Seq<char>, path: Seq<char>) -> Option<Seq<char>> {
    if !seq_accepted(path) {
        None
    } else {
        let p = normalize_path(path).unwrap();
        let full = if ns.len() == 0 {
            p
        } else {
            ns + ns_sep() + p
        };
        if seq_accepted(full) {
            normalize_path(full)
        } else {
            None
        }
    }
}

/// Whether the normalizer's state already commits to output starting with
/// `a`: either nothing is output yet and the current segment starts with `a`,
/// or the output starts with `a`.
pub open spec fn commits_to(st: NormState, a: Seq<char>) -> bool {
    (st.out.len() == 0 && seq_starts_with(st.seg, a)) || seq_starts_with(st.out, a)
}

/// A segment holding `:` is neither `.` nor `..`.
proof fn lemma_colon_segment(seg: Seq<char>, a: Seq<char>)
    requires
        seq_starts_with(seg, a),
        a.contains(':'),
    ensures
        seg.len() > 0,
        seg != dot(),
        seg != dot_dot(),
{
    let i = choose|i: int| 0 <= i < a.len() && a[i] == ':';
    assert(seg.subrange(0, a.len() as int)[i] == ':');
    assert(seg[i] == ':');
    if seg == dot() {
        assert(dot()[i] == '.');
    }
    if seg == dot_dot() {
        assert(dot_dot()[i] == '.');
    }
}

/// Closing a segment keeps the commitment to `a`.
proof fn lemma_flush_commits(st: NormState, a: Seq<char>)
    requires
        commits_to(st, a),
        a.contains(':'),
    ensures
        seq_starts_with(norm_flush(st).out, a),
        commits_to(norm_flush(st), a),
{
    let f = norm_flush(st);
    if st.out.len() == 0 && seq_starts_with(st.seg, a) {
        lemma_colon_segment(st.seg, a);
        assert(f.out == st.seg);
    } else {
        assert(seq_starts_with(st.out, a));
        if st.seg.len() == 0 || st.seg == dot() || st.seg == dot_dot() {
        } else if st.out.len() == 0 {
        } else {
            let o = st.out + seq!['/'] + st.seg;
            assert(o.subrange(0, a.len() as int) =~= st.out.subrange(0, a.len() as int));
        }
    }
}

/// Reading further keeps the commitment to `a`.
proof fn lemma_scan_from_commits(st: NormState, a: Seq<char>, b: Seq<char>)
    requires
        commits_to(st, a),
        a.contains(':'),
    ensures
        commits_to(norm_scan_from(st, b), a),
    decreases b.len(),
{
    if b.len() > 0 {
        lemma_scan_from_commits(st, a, b.drop_last());
        let s0 = norm_scan_from(st, b.drop_last());
        let c = b.last();
        if c == '/' {
            lemma_flush_commits(s0, a);
        } else {
            if s0.out.len() == 0 && seq_starts_with(s0.seg, a) {
                assert(s0.seg.push(c).subrange(0, a.len() as int) =~= s0.seg.subrange(0, a.len() as int));
            }
        }
    }
}

/// The normalized form of `a + b`, when `a` holds a `:` and no `/`, starts
/// with `a`.
proof fn lemma_normalize_keeps_prefix(a: Seq<char>, b: Seq<char>)
    requires
        a.contains(':'),
        !a.contains('/'),
        normalize_path(a + b) is Some,
    ensures
        seq_starts_with(normalize_path(a + b).unwrap(), a),
{
    lemma_scan_no_slash(a);
    assert(a.subrange(0, a.len() as int) =~= a);
    assert(commits_to(norm_scan(a), a));
    lemma_scan_append(a, b);
    lemma_scan_from_commits(norm_scan(a), a, b);
    lemma_flush_commits(norm_scan(a + b), a);
}

/// Two texts that both start with `x::` and `y::`, where `x` and `y` hold no
/// `:`, have `x == y`.
proof fn lemma_namespace_prefix_unique(k: Seq<char>, x: Seq<char>, y: Seq<char>)
    requires
        !x.contains(':'),
        !y.contains(':'),
        seq_starts_with(k, x + ns_sep()),
        seq_starts_with(k, y + ns_sep()),
    ensures
        x == y,
{
    let px = x + ns_sep();
    let py = y + ns_sep();
    assert(k.subrange(0, px.len() as int)[x.len() as int] == ':');
    assert(k.subrange(0, py.len() as int)[y.len() as int] == ':');
    if x.len() < y.len() {
        assert(k[x.len() as int] == ':');
        assert(k.subrange(0, py.len() as int)[x.len() as int] == y[x.len() as int]);
        assert(y.contains(':'));
    } else if y.len() < x.len() {
        assert(k[y.len() as int] == ':');
        assert(k.subrange(0, px.len() as int)[y.len() as int] == x[y.len() as int]);
        assert(x.contains(':'));
    } else {
        assert forall|i: int| 0 <= i < x.len() implies x[i] == y[i] by {
            assert(k.subrange(0, px.len() as int)[i] == x[i]);
            assert(k.subrange(0, py.len() as int)[i] == y[i]);
        }
        assert(x =~= y);
    }
}

/// Namespace isolation: two different non-empty namespaces that hold neither
/// `:` nor `/` never map any two paths to the same storage key, so one
/// isolate cannot reach another's files.
pub proof fn law_namespaces_are_disjoint(ns1: Seq<char>, p1: Seq<char>, ns2: Seq<char>, p2: Seq<char>)
    requires
        ns1 != ns2,
        ns1.len() > 0,
        ns2.len() > 0,
        !ns1.contains(':'),
        !ns1.contains('/'),
        !ns2.contains(':'),
        !ns2.contains('/'),
        isolate_key(ns1, p1) is Some,
        isolate_key(ns2, p2) is Some,
    ensures
        isolate_key(ns1, p1) != isolate_key(ns2, p2),
{
    let a1 = ns1 + ns_sep();
    let a2 = ns2 + ns_sep();
    assert(a1[ns1.len() as int] == ':');
    assert(a2[ns2.len() as int] == ':');
    assert(!a1.contains('/')) by {
        if a1.contains('/') {
            let i = choose|i: int| 0 <= i < a1.len() && a1[i] == '/';
            if i < ns1.len() {
                assert(ns1[i] == '/');
            }
        }
    }
    assert(!a2.contains('/')) by {
        if a2.contains('/') {
            let i = choose|i: int| 0 <= i < a2.len() && a2[i] == '/';
            if i < ns2.len() {
                assert(ns2[i] == '/');
            }
        }
    }
    let q1 = normalize_path(p1).unwrap();
    let q2 = normalize_path(p2).unwrap();
    assert(ns1 + ns_sep() + q1 == a1 + q1);
    assert(ns2 + ns_sep() + q2 == a2 + q2);
    lemma_normalize_keeps_prefix(a1, q1);
    lemma_normalize_keeps_prefix(a2, q2);
    if isolate_key(ns1, p1) == isolate_key(ns2, p2) {
        let k = isolate_key(ns1, p1).unwrap();
        lemma_namespace_prefix_unique(k, ns1, ns2);
    }
}

/// Isolates sharing one backend do not see each other's writes: where two
/// different non-empty namespaces hold neither `:` nor `/`, a successful
/// write through the first leaves what the second finds at any of its paths
/// as it was.
pub proof fn law_shared_backend_isolation(
    ns1: Seq<char>,
    p1: Seq<char>,
    content: Seq<u8>,
    ns2: Seq<char>,
    p2: Seq<char>,
    a: &MemoryBackend,
    b: &MemoryBackend,
)
    requires
        ns1 != ns2,
        ns1.len() > 0,
        ns2.len() > 0,
        !ns1.contains(':'),
        !ns1.contains('/'),
        !ns2.contains(':'),
        !ns2.contains('/'),
        isolate_key(ns1, p1) is Some,
        isolate_key(ns2, p2) is Some,
        MemoryBackend::write_effect(a, isolate_key(ns1, p1).unwrap(), content, b),
    ensures
        b.files().contains_key(isolate_key(ns2, p2).unwrap()) == a.files().contains_key(
            isolate_key(ns2, p2).unwrap(),
        ),
        a.files().contains_key(isolate_key(ns2, p2).unwrap()) ==> b.files()[isolate_key(
            ns2,
            p2,
        ).unwrap()] == a.files()[isolate_key(ns2, p2).unwrap()],
{
    law_namespaces_are_disjoint(ns1, p1, ns2, p2);
    MemoryBackend::law_write_keeps_other_paths(
        a,
        isolate_key(ns1, p1).unwrap(),
        content,
        b,
        isolate_key(ns2, p2).unwrap(),
    );
}

/// The namespace of an ASCII hostname has one character per character of
/// the hostname, and holds `:` or `/` only where the hostname does.
pub proof fn lemma_namespace_chars(h: Seq<char>)
    requires
        all_ascii(h),
    ensures
        namespace_of(h).len() == h.len(),
        namespace_of(h).contains(':') ==> h.contains(':'),
        namespace_of(h).contains('/') ==> h.contains('/'),
{
    let n = namespace_of(h);
    assert(lower_text(h) == ascii_lower(h));
    if n.contains(':') {
        let i = choose|i: int| 0 <= i < n.len() && n[i] == ':';
        let c = h[i];
        if 'A' <= c && c <= 'Z' {
            assert((((c as u32) + 32) as char) as u32 == (c as u32) + 32);
        }
        assert(h[i] == ':');
    }
    if n.contains('/') {
        let i = choose|i: int| 0 <= i < n.len() && n[i] == '/';
        let c = h[i];
        if 'A' <= c && c <= 'Z' {
            assert((((c as u32) + 32) as char) as u32 == (c as u32) + 32);
        }
        assert(h[i] == '/');
    }
}

/// Hostname isolation: two ASCII hostnames without `:` or `/` whose
/// namespaces differ never map any two paths to the same storage key.
pub proof fn law_hostnames_are_isolated(h1: Seq<char>, p1: Seq<char>, h2: Seq<char>, p2: Seq<char>)
    requires
        all_ascii(h1),
        all_ascii(h2),
        h1.len() > 0,
        h2.len() > 0,
        !h1.contains(':'),
        !h1.contains('/'),
        !h2.contains(':'),
        !h2.contains('/'),
        namespace_of(h1) != namespace_of(h2),
        isolate_key(namespace_of(h1), p1) is Some,
        isolate_key(namespace_of(h2), p2) is Some,
    ensures
        isolate_key(namespace_of(h1), p1) != isolate_key(namespace_of(h2), p2),
{
    lemma_namespace_chars(h1);
    lemma_namespace_chars(h2);
    law_namespaces_are_disjoint(namespace_of(h1), p1, namespace_of(h2), p2);
}

impl VfsNamespace {
    /// The storage key of `path` in this namespace, or `InvalidPath` when
    /// the path or its prefixed form is refused.
    pub fn storage_path(&self, path: &str) -> (r: VfsResult<VfsPath>)
        ensures
            match isolate_key(self@, path@) {
                Some(k) => r matches Ok(p) && p@ == k,
                None => r matches Err(e) && e is InvalidPath,
            },
    {
        let p = match VfsPath::new(path) {
            Ok(p) => p,
            Err(e) => {
                return Err(e);
            },
        };
        let ns = self.name.as_str();
        let prefixed = if ns.is_empty() {
            p.to_string()
        } else {
            join_namespace(ns, p.as_str())
        };
        VfsPath::new(prefixed.as_str())
    }

    /// The content of the file at `path` in this namespace of `backend`.
    pub fn read_from(&self, backend: &MemoryBackend, path: &str) -> (r: VfsResult<Vec<u8>>)
        ensures
            match isolate_key(self@, path@) {
                Some(k) => backend.read_outcome(k, r),
                None => r matches Err(e) && e is InvalidPath,
            },
    {
        let storage_path = self.storage_path(path)?;
        backend.read(&storage_path)
    }

    /// Stores `content` at `path` in this namespace of `backend`.
    pub fn write_to(&self, backend: &mut MemoryBackend, path: &str, content: &[u8]) -> (r: VfsResult<()>)
        requires
            old(backend).inv(),
            isolate_key(self@, path@) matches Some(k) ==> old(backend).write_fits(k, content@.len()),
        ensures
            final(backend).inv(),
            match isolate_key(self@, path@) {
                Some(k) => MemoryBackend::write_outcome(&*old(backend), k, content@, r, &*final(backend)),
                None => (r matches Err(e) && e is InvalidPath) && *final(backend) == *old(backend),
            },
    {
        let storage_path = self.storage_path(path)?;
        backend.write(&storage_path, content)
    }

    /// Whether a file is stored at `path` in this namespace of `backend`.
    pub fn exists_in(&self, backend: &MemoryBackend, path: &str) -> (r: VfsResult<bool>)
        ensures
            match isolate_key(self@, path@) {
                Some(k) => r == Ok::<bool, VfsError>(backend.files().contains_key(k)),
                None => r matches Err(e) && e is InvalidPath,
            },
    {
        let storage_path = self.storage_path(path)?;
        Ok(backend.exists_path(&storage_path))
    }

    /// Removes the file at `path` in this namespace of `backend`.
    pub fn delete_from(&self, backend: &mut MemoryBackend, path: &str) -> (r: VfsResult<()>)
        requires
            old(backend).inv(),
        ensures
            final(backend).inv(),
            match isolate_key(self@, path@) {
                Some(k) => MemoryBackend::delete_outcome(&*old(backend), k, r, &*final(backend)),
                None => (r matches Err(e) && e is InvalidPath) && *final(backend) == *old(backend),
            },
    {
        let storage_path = self.storage_path(path)?;
        backend.delete(&storage_path)
    }

    /// A copy of the file at `path` in this namespace of `backend`.
    pub fn metadata_in(&self, backend: &MemoryBackend, path: &str) -> (r: VfsResult<VfsFile>)
        ensures
            match isolate_key(self@, path@) {
                Some(k) => backend.metadata_outcome(k, r),
                None => r matches Err(e) && e is InvalidPath,
            },
    {
        let storage_path = self.storage_path(path)?;
        backend.metadata(&storage_path)
    }

    /// The children of directory `path` in this namespace of `backend`, as
    /// storage paths.
    pub fn list_dir_in(&self, backend: &MemoryBackend, path: &str) -> (r: VfsResult<Vec<VfsPath>>)
        ensures
            match isolate_key(self@, path@) {
                Some(k) => r matches Ok(v) && backend.lists_children(k, v@),
                None => r matches Err(e) && e is InvalidPath,
            },
    {
        let storage_path = self.storage_path(path)?;
        backend.list_dir(&storage_path)
    }
}

/// A backend seen through one isolate's namespace. Isolates that share one
/// backend use the namespace's own operations ([`VfsNamespace::read_from`],
/// [`VfsNamespace::write_to`] and the others) on that backend.
pub struct IsolateVfs {
    namespace: VfsNamespace,
    backend: MemoryBackend,
}

impl IsolateVfs {
    /// The namespace.
    pub closed spec fn ns(&self) -> Seq<char> {
        self.namespace@
    }

    /// The backend.
    pub closed spec fn store(&self) -> MemoryBackend {
        self.backend
    }

    /// The storage key of `path` in this isolate.
    pub open spec fn key(&self, path: Seq<char>) -> Option<Seq<char>> {
        isolate_key(self.ns(), path)
    }

    /// A view of `backend` under `namespace`.
    pub fn new(namespace: VfsNamespace, backend: MemoryBackend) -> (r: IsolateVfs)
        ensures
            r.ns() == namespace@,
            r.store() == backend,
    {
        IsolateVfs { namespace, backend }
    }

    /// The namespace.
    pub fn namespace(&self) -> (r: &VfsNamespace)
        ensures
            r@ == self.ns(),
    {
        &self.namespace
    }

    /// The backend.
    pub fn backend(&self) -> (r: &MemoryBackend)
        ensures
            *r == self.store(),
    {
        &self.backend
    }

    /// The storage key of `path`, or `InvalidPath` when the path or its
    /// prefixed form is refused.
    pub fn prefix_namespace(&self, path: &str) -> (r: VfsResult<VfsPath>)
        ensures
            match self.key(path@) {
                Some(k) => r matches Ok(p) && p@ == k,
                None => r matches Err(e) && e is InvalidPath,
            },
    {
        self.namespace.storage_path(path)
    }

    /// The content of the file at `path` in this isolate.
    pub fn read(&self, path: &str) -> (r: VfsResult<Vec<u8>>)
        ensures
            match self.key(path@) {
                Some(k) => self.store().read_outcome(k, r),
                None => r matches Err(e) && e is InvalidPath,
            },
    {
        self.namespace.read_from(&self.backend, path)
    }

    /// Stores `content` at `path` in this isolate.
    pub fn write(&mut self, path: &str, content: &[u8]) -> (r: VfsResult<()>)
        requires
            old(self).store().inv(),
            old(self).key(path@) matches Some(k) ==> old(self).store().write_fits(k, content@.len()),
        ensures
            final(self).store().inv(),
            final(self).ns() == old(self).ns(),
            match old(self).key(path@) {
                Some(k) => MemoryBackend::write_outcome(&old(self).store(), k, content@, r, &final(self).store()),
                None => (r matches Err(e) && e is InvalidPath) && final(self).store() == old(self).store(),
            },
    {
        self.namespace.write_to(&mut self.backend, path, content)
    }

    /// Whether a file is stored at `path` in this isolate.
    pub fn exists_path(&self, path: &str) -> (r: VfsResult<bool>)
        ensures
            match self.key(path@) {
                Some(k) => r == Ok::<bool, VfsError>(self.store().files().contains_key(k)),
                None => r matches Err(e) && e is InvalidPath,
            },
    {
        self.namespace.exists_in(&self.backend, path)
    }

    /// Removes the file at `path` in this isolate.
    pub fn delete(&mut self, path: &str) -> (r: VfsResult<()>)
        requires
            old(self).store().inv(),
        ensures
            final(self).store().inv(),
            final(self).ns() == old(self).ns(),
            match old(self).key(path@) {
                Some(k) => MemoryBackend::delete_outcome(&old(self).store(), k, r, &final(self).store()),
                None => (r matches Err(e) && e is InvalidPath) && final(self).store() == old(self).store(),
            },
    {
        self.namespace.delete_from(&mut self.backend, path)
    }

    /// A copy of the file at `path` in this isolate.
    pub fn metadata(&self, path: &str) -> (r: VfsResult<VfsFile>)
        ensures
            match self.key(path@) {
                Some(k) => self.store().metadata_outcome(k, r),
                None => r matches Err(e) && e is InvalidPath,
            },
    {
        self.namespace.metadata_in(&self.backend, path)
    }

    /// The children of directory `path` in this isolate, as storage paths.
    pub fn list_dir(&self, path: &str) -> (r: VfsResult<Vec<VfsPath>>)
        ensures
            match self.key(path@) {
                Some(k) => r matches Ok(v) && self.store().lists_children(k, v@),
                None => r matches Err(e) && e is InvalidPath,
            },
    {
        self.namespace.list_dir_in(&self.backend, path)
    }
}

} // verus!
