//! Core VFS types: normalized paths, files, errors and resource limits.

use vstd::prelude::*;
use crate::text::{str_chars, string_from_chars, push_chars};
use vstd::string::StringSliceAdditionalSpecFns;
use vstd::string::StringExecFns;

verus! {

/// Longest path, in bytes, that the VFS accepts.
pub const MAX_PATH_LENGTH: usize = 4096;

/// Scanning state of the path normalizer: the normalized prefix built so
/// far, the segment being read, and whether a `..` segment was seen.
pub struct NormState {
    pub out: Seq<char>,
    pub seg: Seq<char>,
    pub bad: bool,
}

/// The segment `.`.
pub open spec fn dot() -> Seq<char> {
    seq!['.']
}

/// The segment `..`.
pub open spec fn dot_dot() -> Seq<char> {
    seq!['.', '.']
}

/// Closes the current segment: empty and `.` segments vanish, `..` marks the
/// path as refused, any other segment is appended after a `/`.
pub open spec fn norm_flush(st: NormState) -> NormState {
    if st.seg.len() == 0 || st.seg == dot() {
        NormState { out: st.out, seg: Seq::empty(), bad: st.bad }
    } else if st.seg == dot_dot() {
        NormState { out: st.out, seg: Seq::empty(), bad: true }
    } else if st.out.len() == 0 {
        NormState { out: st.seg, seg: Seq::empty(), bad: st.bad }
    } else {
        NormState { out: st.out + seq!['/'] + st.seg, seg: Seq::empty(), bad: st.bad }
    }
}

/// Reads one character: `/` closes a segment, anything else extends it.
pub open spec fn norm_step(st: NormState, c: char) -> NormState {
    if c == '/' {
        norm_flush(st)
    } else {
        NormState { out: st.out, seg: st.seg.push(c), bad: st.bad }
    }
}

/// The normalizer's state after reading all of `s`.
pub open spec fn norm_scan(s: Seq<char>) -> NormState
    decreases s.len(),
{
    if s.len() == 0 {
        NormState { out: Seq::empty(), seg: Seq::empty(), bad: false }
    } else {
        norm_step(norm_scan(s.drop_last()), s.last())
    }
}

/// The normalized form of a path: segments separated by single `/`, with no
/// leading or trailing `/`, no empty and no `.` segments. `None` when the path
/// holds a `..` segment or a NUL character.
pub open spec fn normalize_path(s: Seq<char>) -> Option<Seq<char>> {
    let st = norm_flush(norm_scan(s));
    if st.bad || s.contains('\0') {
        None
    } else {
        Some(st.out)
    }
}

/// The normalizer's state after reading `b` from state `st`.
pub open spec fn norm_scan_from(st: NormState, b: Seq<char>) -> NormState
    decreases b.len(),
{
    if b.len() == 0 {
        st
    } else {
        norm_step(norm_scan_from(st, b.drop_last()), b.last())
    }
}

/// Reading `a + b` is reading `a`, then `b`.
pub proof fn lemma_scan_append(a: Seq<char>, b: Seq<char>)
    ensures
        norm_scan(a + b) == norm_scan_from(norm_scan(a), b),
    decreases b.len(),
{
    if b.len() == 0 {
        assert(a + b =~= a);
    } else {
        lemma_scan_append(a, b.drop_last());
        assert((a + b).drop_last() =~= a + b.drop_last());
        assert((a + b).last() == b.last());
    }
}

/// A text without `/` is read into the current segment.
pub proof fn lemma_scan_no_slash(a: Seq<char>)
    requires
        !a.contains('/'),
    ensures
        norm_scan(a) == (NormState { out: Seq::empty(), seg: a, bad: false }),
    decreases a.len(),
{
    if a.len() == 0 {
        assert(a =~= Seq::<char>::empty());
    } else {
        let d = a.drop_last();
        assert(!d.contains('/')) by {
            if d.contains('/') {
                let i = choose|i: int| 0 <= i < d.len() && d[i] == '/';
                assert(a[i] == '/');
            }
        }
        lemma_scan_no_slash(d);
        assert(a[a.len() - 1] != '/');
        assert(d.push(a.last()) =~= a);
    }
}

/// Whether a path is already in normalized form.
pub open spec fn path_canonical(p: Seq<char>) -> bool {
    normalize_path(p) == Some(p)
}

/// Reading text without `/` from any state extends the current segment.
pub proof fn lemma_scan_from_no_slash(st: NormState, g: Seq<char>)
    requires
        !g.contains('/'),
    ensures
        norm_scan_from(st, g) == (NormState { out: st.out, seg: st.seg + g, bad: st.bad }),
    decreases g.len(),
{
    if g.len() == 0 {
        assert(st.seg + g =~= st.seg);
    } else {
        let d = g.drop_last();
        assert(!d.contains('/')) by {
            if d.contains('/') {
                let i = choose|i: int| 0 <= i < d.len() && d[i] == '/';
                assert(g[i] == '/');
            }
        }
        lemma_scan_from_no_slash(st, d);
        assert(g[g.len() - 1] != '/');
        assert((st.seg + d).push(g.last()) =~= st.seg + g);
    }
}

/// Whether the normalizer reads `o` back as itself.
pub open spec fn reads_back(o: Seq<char>) -> bool {
    norm_flush(norm_scan(o)) == (NormState { out: o, seg: Seq::empty(), bad: false })
}

/// Whether `x` occurs in neither `a` nor `b`.
proof fn lemma_concat_lacks(a: Seq<char>, b: Seq<char>, x: char)
    requires
        !a.contains(x),
        !b.contains(x),
    ensures
        !(a + b).contains(x),
{
    if (a + b).contains(x) {
        let i = choose|i: int| 0 <= i < (a + b).len() && (a + b)[i] == x;
        if i < a.len() {
            assert(a[i] == x);
        } else {
            assert(b[i - a.len()] == x);
        }
    }
}

/// Appending a proper segment to an output that reads back keeps it so.
proof fn lemma_reads_back_extend(o: Seq<char>, g: Seq<char>)
    requires
        reads_back(o),
        g.len() > 0,
        !g.contains('/'),
        g != dot(),
        g != dot_dot(),
    ensures
        reads_back(if o.len() == 0 { g } else { o + seq!['/'] + g }),
{
    if o.len() == 0 {
        lemma_scan_no_slash(g);
    } else {
        let o2 = o + seq!['/'];
        lemma_scan_append(o2, g);
        assert(o2.drop_last() =~= o);
        assert(o2.last() == '/');
        assert(norm_scan(o2) == norm_step(norm_scan(o), '/'));
        lemma_scan_from_no_slash(norm_scan(o2), g);
        assert(Seq::<char>::empty() + g =~= g);
        assert(o + seq!['/'] + g =~= o2 + g);
    }
}

/// Closing a segment keeps the scanning invariant.
proof fn lemma_flush_invariant(st: NormState)
    requires
        !st.bad ==> reads_back(st.out),
        !st.seg.contains('/'),
    ensures
        !norm_flush(st).bad ==> reads_back(norm_flush(st).out),
        norm_flush(st).seg.len() == 0,
        !st.out.contains('\0') && !st.seg.contains('\0') ==> !norm_flush(st).out.contains('\0'),
{
    if st.seg.len() == 0 || st.seg == dot() {
    } else if st.seg == dot_dot() {
    } else {
        if !st.bad {
            lemma_reads_back_extend(st.out, st.seg);
        }
        if !st.out.contains('\0') && !st.seg.contains('\0') && st.out.len() > 0 {
            assert(!seq!['/'].contains('\0')) by {
                if seq!['/'].contains('\0') {
                    let i = choose|i: int| 0 <= i < 1 && seq!['/'][i] == '\0';
                }
            }
            lemma_concat_lacks(st.out, seq!['/'], '\0');
            lemma_concat_lacks(st.out + seq!['/'], st.seg, '\0');
        }
    }
}

/// What holds of the normalizer's state after reading any text.
proof fn lemma_scan_invariant(s: Seq<char>)
    ensures
        !norm_scan(s).bad ==> reads_back(norm_scan(s).out),
        !norm_scan(s).seg.contains('/'),
        !s.contains('\0') ==> !norm_scan(s).out.contains('\0') && !norm_scan(s).seg.contains('\0'),
    decreases s.len(),
{
    if s.len() == 0 {
        assert(reads_back(Seq::<char>::empty()));
    } else {
        let d = s.drop_last();
        let c = s.last();
        lemma_scan_invariant(d);
        let st = norm_scan(d);
        if !s.contains('\0') {
            assert(!d.contains('\0')) by {
                if d.contains('\0') {
                    let i = choose|i: int| 0 <= i < d.len() && d[i] == '\0';
                    assert(s[i] == '\0');
                }
            }
            assert(s[s.len() - 1] == c);
        }
        if c == '/' {
            lemma_flush_invariant(st);
        } else {
            let seg2 = st.seg.push(c);
            assert(!seg2.contains('/')) by {
                if seg2.contains('/') {
                    let i = choose|i: int| 0 <= i < seg2.len() && seg2[i] == '/';
                    if i < st.seg.len() {
                        assert(st.seg[i] == '/');
                    }
                }
            }
            if !s.contains('\0') {
                assert(!seg2.contains('\0')) by {
                    if seg2.contains('\0') {
                        let i = choose|i: int| 0 <= i < seg2.len() && seg2[i] == '\0';
                        if i < st.seg.len() {
                            assert(st.seg[i] == '\0');
                        }
                    }
                }
            }
        }
    }
}

/// The normalized form of a path is normalized already.
pub proof fn lemma_normalize_canonical(s: Seq<char>)
    requires
        normalize_path(s) is Some,
    ensures
        path_canonical(normalize_path(s)->0),
{
    lemma_scan_invariant(s);
    lemma_flush_invariant(norm_scan(s));
}

/// The state reached by reading after the normalized output `o`, given the
/// state reached by reading the same text from the start.
pub open spec fn prefixed(o: Seq<char>, st: NormState) -> NormState {
    NormState {
        out: if st.out.len() == 0 { o } else { o + seq!['/'] + st.out },
        seg: st.seg,
        bad: st.bad,
    }
}

/// Closing a segment commutes with a normalized prefix.
proof fn lemma_flush_prefixed(o: Seq<char>, st: NormState)
    requires
        o.len() > 0,
    ensures
        norm_flush(prefixed(o, st)) == prefixed(o, norm_flush(st)),
{
    if st.seg.len() == 0 || st.seg == dot() || st.seg == dot_dot() {
    } else if st.out.len() == 0 {
    } else {
        assert(o + seq!['/'] + st.out + seq!['/'] + st.seg =~= o + seq!['/'] + (st.out + seq!['/']
            + st.seg));
    }
}

/// Reading text after a normalized output `o` is reading it from the start,
/// with `o` put in front of the output.
proof fn lemma_scan_from_prefixed(o: Seq<char>, b: Seq<char>)
    requires
        o.len() > 0,
    ensures
        norm_scan_from(NormState { out: o, seg: Seq::empty(), bad: false }, b) == prefixed(
            o,
            norm_scan(b),
        ),
    decreases b.len(),
{
    if b.len() > 0 {
        lemma_scan_from_prefixed(o, b.drop_last());
        if b.last() == '/' {
            lemma_flush_prefixed(o, norm_scan(b.drop_last()));
        }
    }
}

/// Joining two normalized non-empty paths with `/` gives a normalized path.
pub proof fn lemma_join_canonical(a: Seq<char>, b: Seq<char>)
    requires
        path_canonical(a),
        path_canonical(b),
        a.len() > 0,
        b.len() > 0,
    ensures
        path_canonical(a + seq!['/'] + b),
{
    let a2 = a + seq!['/'];
    lemma_scan_append(a2, b);
    assert(a2.drop_last() =~= a);
    assert(a2.last() == '/');
    assert(norm_scan(a2) == norm_flush(norm_scan(a)));
    assert(norm_scan(a2) == (NormState { out: a, seg: Seq::empty(), bad: false }));
    lemma_scan_from_prefixed(a, b);
    lemma_flush_prefixed(a, norm_scan(b));
    assert(a2 + b =~= a + seq!['/'] + b);
    assert(!seq!['/'].contains('\0')) by {
        if seq!['/'].contains('\0') {
            let i = choose|i: int| 0 <= i < 1 && seq!['/'][i] == '\0';
        }
    }
    lemma_concat_lacks(a, seq!['/'], '\0');
    lemma_concat_lacks(a2, b, '\0');
}

/// The UTF-8 encoding of a concatenation is the concatenation of encodings.
pub proof fn lemma_utf8_concat(a: Seq<char>, b: Seq<char>)
    ensures
        vstd::utf8::encode_utf8(a + b) == vstd::utf8::encode_utf8(a) + vstd::utf8::encode_utf8(b),
    decreases a.len(),
{
    if a.len() == 0 {
        assert(a + b =~= b);
        assert(vstd::utf8::encode_utf8(a) + vstd::utf8::encode_utf8(b) =~= vstd::utf8::encode_utf8(b));
    } else {
        lemma_utf8_concat(a.drop_first(), b);
        assert((a + b).drop_first() =~= a.drop_first() + b);
        assert((a + b)[0] == a[0]);
        assert(vstd::utf8::encode_utf8(a + b) =~= vstd::utf8::encode_scalar(a[0] as u32) + (
        vstd::utf8::encode_utf8(a.drop_first()) + vstd::utf8::encode_utf8(b)));
    }
}

/// The UTF-8 length of the normalizer's output and current segment, plus
/// one for the separator owed once output exists.
pub open spec fn norm_cost(st: NormState) -> int {
    vstd::utf8::encode_utf8(st.out).len() + vstd::utf8::encode_utf8(st.seg).len() + if st.out.len() > 0 {
        1int
    } else {
        0int
    }
}

/// The separator is one byte in UTF-8.
proof fn lemma_slash_len()
    ensures
        vstd::utf8::encode_utf8(seq!['/']).len() == 1,
{
    assert(vstd::utf8::is_ascii_chars(seq!['/']));
    vstd::utf8::is_ascii_chars_encode_utf8(seq!['/']);
}

/// Closing a segment adds at most one byte to the cost and empties it.
proof fn lemma_flush_cost(st: NormState)
    ensures
        norm_cost(norm_flush(st)) <= norm_cost(st) + 1,
        norm_flush(st).seg.len() == 0,
{
    let f = norm_flush(st);
    assert(vstd::utf8::encode_utf8(Seq::<char>::empty()).len() == 0);
    if st.seg.len() == 0 || st.seg == dot() || st.seg == dot_dot() {
    } else if st.out.len() == 0 {
    } else {
        lemma_slash_len();
        lemma_utf8_concat(st.out, seq!['/']);
        lemma_utf8_concat(st.out + seq!['/'], st.seg);
    }
}

/// The cost of reading `s` is at most its UTF-8 length.
proof fn lemma_scan_cost(s: Seq<char>)
    ensures
        norm_cost(norm_scan(s)) <= vstd::utf8::encode_utf8(s).len(),
    decreases s.len(),
{
    if s.len() == 0 {
        assert(vstd::utf8::encode_utf8(Seq::<char>::empty()).len() == 0);
    } else {
        let d = s.drop_last();
        let c = s.last();
        lemma_scan_cost(d);
        assert(s =~= d + seq![c]);
        lemma_utf8_concat(d, seq![c]);
        let st = norm_scan(d);
        if c == '/' {
            lemma_slash_len();
            lemma_flush_cost(st);
        } else {
            assert(st.seg.push(c) =~= st.seg + seq![c]);
            lemma_utf8_concat(st.seg, seq![c]);
        }
    }
}

/// Normalizing never lengthens a path in UTF-8.
pub proof fn lemma_normalize_shorter(s: Seq<char>)
    requires
        normalize_path(s) is Some,
    ensures
        vstd::utf8::encode_utf8(normalize_path(s)->0).len() <= vstd::utf8::encode_utf8(s).len(),
{
    lemma_scan_cost(s);
    lemma_flush_cost(norm_scan(s));
    assert(vstd::utf8::encode_utf8(Seq::<char>::empty()).len() == 0);
}

/// Whether the characters `s` form a path that [`VfsPath::new`] accepts: at
/// most [`MAX_PATH_LENGTH`] bytes in UTF-8, and normalizable.
pub open spec fn seq_accepted(s: Seq<char>) -> bool {
    (vstd::utf8::encode_utf8(s).len() as usize) <= MAX_PATH_LENGTH && normalize_path(s) is Some
}

/// Whether `path` is accepted by [`VfsPath::new`].
pub open spec fn path_accepted(path: &str) -> bool {
    seq_accepted(path@)
}

/// A validated, normalized VFS path.
#[derive(Debug)]
pub struct VfsPath {
    path: String,
}

impl View for VfsPath {
    type V = Seq<char>;

    closed spec fn view(&self) -> Seq<char> {
        self.path@
    }
}

impl VfsPath {
    /// Every path is held in normalized form, and is itself accepted.
    #[verifier::type_invariant]
    pub open spec fn inv(self) -> bool {
        path_canonical(self@) && seq_accepted(self@)
    }
}

/// Whether a character sequence equals `.`.
fn is_dot(seg: &Vec<char>) -> (r: bool)
    ensures
        r == (seg@ == dot()),
{
    if seg.len() == 1 && seg[0] == '.' {
        assert(seg@ =~= dot());
        true
    } else {
        false
    }
}

/// Whether a character sequence equals `..`.
fn is_dot_dot(seg: &Vec<char>) -> (r: bool)
    ensures
        r == (seg@ == dot_dot()),
{
    if seg.len() == 2 && seg[0] == '.' && seg[1] == '.' {
        assert(seg@ =~= dot_dot());
        true
    } else {
        false
    }
}

/// Executes [`norm_flush`] on concrete buffers.
fn flush_segment(out: &mut Vec<char>, seg: &mut Vec<char>, bad: &mut bool)
    ensures
        ({
            let st = norm_flush(NormState { out: old(out)@, seg: old(seg)@, bad: *old(bad) });
            &&& final(out)@ == st.out
            &&& final(seg)@ == st.seg
            &&& *final(bad) == st.bad
        }),
{
    if seg.len() == 0 || is_dot(seg) {
    } else if is_dot_dot(seg) {
        *bad = true;
    } else {
        if out.len() > 0 {
            out.push('/');
        }
        push_chars(out, seg.as_slice());
    }
    seg.clear();
    assert(seg@ =~= Seq::<char>::empty());
}

/// The normalized characters of `chars`, or `None` where
/// [`normalize_path`] refuses them.
pub fn normalize_chars(chars: &[char]) -> (r: Option<Vec<char>>)
    ensures
        match r {
            Some(v) => normalize_path(chars@) == Some(v@),
            None => normalize_path(chars@) is None,
        },
{
    let mut out: Vec<char> = Vec::new();
    let mut seg: Vec<char> = Vec::new();
    let mut bad = false;
    let mut has_nul = false;
    let mut i: usize = 0;
    while i < chars.len()
        invariant
            i <= chars@.len(),
            ({
                let st = norm_scan(chars@.subrange(0, i as int));
                &&& out@ == st.out
                &&& seg@ == st.seg
                &&& bad == st.bad
            }),
            has_nul == chars@.subrange(0, i as int).contains('\0'),
        decreases chars@.len() - i,
    {
        let c = chars[i];
        let ghost prefix = chars@.subrange(0, i as int);
        assert(chars@.subrange(0, i + 1).drop_last() =~= prefix);
        if c == '/' {
            flush_segment(&mut out, &mut seg, &mut bad);
        } else {
            seg.push(c);
        }
        if c == '\0' {
            has_nul = true;
            assert(chars@.subrange(0, i + 1)[i as int] == '\0');
        }
        proof {
            let next = chars@.subrange(0, i + 1);
            if !has_nul {
                assert forall|j: int| 0 <= j < next.len() implies next[j] != '\0' by {
                    if j < i {
                        assert(next[j] == prefix[j]);
                    }
                }
            } else if c != '\0' {
                let j = choose|j: int| 0 <= j < prefix.len() && prefix[j] == '\0';
                assert(next[j] == '\0');
            }
        }
        i = i + 1;
    }
    assert(chars@.subrange(0, chars@.len() as int) =~= chars@);
    flush_segment(&mut out, &mut seg, &mut bad);
    if bad || has_nul {
        None
    } else {
        Some(out)
    }
}

impl VfsPath {
    /// Validates and normalizes `path`; the error names the refused path.
    pub fn new(path: &str) -> (r: VfsResult<VfsPath>)
        ensures
            match r {
                Ok(p) => path_accepted(path) && Some(p@) == normalize_path(path@) && path_canonical(p@),
                Err(e) => !path_accepted(path) && e == VfsError::InvalidPath {
                    path: e->InvalidPath_path,
                    reason: e->InvalidPath_reason,
                } && e->InvalidPath_path@ == path@,
            },
    {
        let bytes = path.as_bytes();
        if bytes.len() > MAX_PATH_LENGTH {
            return Err(VfsError::InvalidPath {
                path: path.to_owned(),
                reason: String::from_str("path too long"),
            });
        }
        let chars = str_chars(path);
        match normalize_chars(chars.as_slice()) {
            Some(v) => {
                proof {
                    lemma_normalize_canonical(path@);
                    lemma_normalize_shorter(path@);
                }
                Ok(VfsPath { path: string_from_chars(v.as_slice()) })
            },
            None => Err(VfsError::InvalidPath {
                path: path.to_owned(),
                reason: String::from_str("path contains '..' or a NUL character"),
            }),
        }
    }

    /// The normalized path text.
    pub fn as_str(&self) -> (r: &str)
        ensures
            r@ == self@,
    {
        self.path.as_str()
    }

    /// An owned copy of the path text.
    pub fn to_string(&self) -> (r: String)
        ensures
            r@ == self@,
    {
        self.path.clone()
    }
}

impl Clone for VfsPath {
    fn clone(&self) -> (r: Self)
        ensures
            r@ == self@,
    {
        proof {
            use_type_invariant(self);
        }
        VfsPath { path: self.path.clone() }
    }
}

/// A stored file: its bytes, creation and modification times (nanoseconds
/// since the Unix epoch) and its recorded size.
#[derive(Debug)]
pub struct VfsFile {
    pub content: Vec<u8>,
    pub created_at: u64,
    pub modified_at: u64,
    pub size: usize,
}

/// The mathematical value of a [`VfsFile`].
pub struct FileView {
    pub content: Seq<u8>,
    pub created_at: u64,
    pub modified_at: u64,
    pub size: usize,
}

impl View for VfsFile {
    type V = FileView;

    open spec fn view(&self) -> FileView {
        FileView {
            content: self.content@,
            created_at: self.created_at,
            modified_at: self.modified_at,
            size: self.size,
        }
    }
}

impl Clone for VfsFile {
    fn clone(&self) -> (r: Self)
        ensures
            r@ == self@,
    {
        let content = self.content.clone();
        assert(content@ =~= self.content@);
        VfsFile {
            content,
            created_at: self.created_at,
            modified_at: self.modified_at,
            size: self.size,
        }
    }
}

/// `UNIX_EPOCH.elapsed()`: the wall-clock time since the Unix epoch, in
/// nanoseconds (`Duration::as_nanos`), or `None` for a clock set before the
/// epoch. Nothing is said of its value: it is the clock's.
#[verifier::external_body]
fn elapsed_since_epoch() -> Option<u128> {
    match std::time::UNIX_EPOCH.elapsed() {
        Ok(d) => Some(d.as_nanos()),
        Err(_) => None,
    }
}

/// The current wall-clock time in nanoseconds since the Unix epoch (zero for
/// times before the epoch, saturating past `u64::MAX`).
pub(crate) fn now_nanos() -> u64 {
    match elapsed_since_epoch() {
        Some(n) => if n > u64::MAX as u128 {
            u64::MAX
        } else {
            n as u64
        },
        None => 0,
    }
}

impl VfsFile {
    /// A file holding `content`, created and modified now.
    pub fn new(content: Vec<u8>) -> (r: VfsFile)
        ensures
            r.content@ == content@,
            r.size == content@.len(),
            r.created_at == r.modified_at,
    {
        let now = now_nanos();
        let size = content.len();
        VfsFile { content, created_at: now, modified_at: now, size }
    }
}

/// Quotas enforced by a backend.
#[derive(Debug)]
pub struct ResourceLimits {
    /// Largest single file, in bytes.
    pub max_file_size: usize,
    /// Largest sum of file sizes, in bytes.
    pub max_total_storage: usize,
    /// Most files.
    pub max_files: usize,
}

impl Clone for ResourceLimits {
    fn clone(&self) -> (r: Self)
        ensures
            r == *self,
    {
        ResourceLimits {
            max_file_size: self.max_file_size,
            max_total_storage: self.max_total_storage,
            max_files: self.max_files,
        }
    }
}

impl Copy for ResourceLimits {}

/// The default single-file limit: 10 MiB.
pub const DEFAULT_MAX_FILE_SIZE: usize = 10485760;

/// The default storage limit: 100 MiB.
pub const DEFAULT_MAX_TOTAL_STORAGE: usize = 104857600;

/// The default file-count limit.
pub const DEFAULT_MAX_FILES: usize = 10000;

impl ResourceLimits {
    /// The default limits.
    pub open spec fn spec_default() -> ResourceLimits {
        ResourceLimits {
            max_file_size: DEFAULT_MAX_FILE_SIZE,
            max_total_storage: DEFAULT_MAX_TOTAL_STORAGE,
            max_files: DEFAULT_MAX_FILES,
        }
    }
}

impl Default for ResourceLimits {
    fn default() -> (r: Self)
        ensures
            r == ResourceLimits::spec_default(),
    {
        ResourceLimits {
            max_file_size: DEFAULT_MAX_FILE_SIZE,
            max_total_storage: DEFAULT_MAX_TOTAL_STORAGE,
            max_files: DEFAULT_MAX_FILES,
        }
    }
}

/// Errors of VFS operations.
#[derive(Debug)]
pub enum VfsError {
    NotFound { path: String },
    AlreadyExists { path: String },
    InvalidPath { path: String, reason: String },
    PermissionDenied { path: String },
    QuotaExceeded { resource: String, limit: usize, current: usize },
    IoError(String),
}

/// The Node-style code of each error kind.
pub open spec fn error_code(e: VfsError) -> Seq<char> {
    match e {
        VfsError::NotFound { .. } => "ENOENT"@,
        VfsError::AlreadyExists { .. } => "EEXIST"@,
        VfsError::InvalidPath { .. } => "EINVAL"@,
        VfsError::PermissionDenied { .. } => "EACCES"@,
        VfsError::QuotaExceeded { .. } => "EQUOTA"@,
        VfsError::IoError(_) => "EIO"@,
    }
}

impl VfsError {
    /// The Node-style error code of this error.
    pub fn code(&self) -> (r: &'static str)
        ensures
            r@ == error_code(*self),
    {
        match self {
            VfsError::NotFound { .. } => "ENOENT",
            VfsError::AlreadyExists { .. } => "EEXIST",
            VfsError::InvalidPath { .. } => "EINVAL",
            VfsError::PermissionDenied { .. } => "EACCES",
            VfsError::QuotaExceeded { .. } => "EQUOTA",
            VfsError::IoError(_) => "EIO",
        }
    }
}

/// The result of a VFS operation.
pub type VfsResult<T> = Result<T, VfsError>;

} // verus!
