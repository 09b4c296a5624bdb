//! Small string helpers shared by the path and manifest code.

use vstd::prelude::*;

verus! {

/// The characters of a string slice, in order.
pub fn str_chars(s: &str) -> (r: Vec<char>)
    ensures
        r@ == s@,
{
    broadcast use vstd::string::axiom_spec_iter;
    let mut out: Vec<char> = Vec::new();
    for c in it: s.chars()
        invariant
            out@ == it.seq().take(it.index() as int),
    {
        out.push(c);
    }
    out
}

/// A string made of the given characters, in order.
#[verifier::external_body]
pub(crate) fn string_from_chars(v: &[char]) -> (r: String)
    ensures
        r@ == v@,
{
    String::from_iter(v.iter())
}

/// Whether two strings hold the same characters.
pub fn str_eq(a: &str, b: &str) -> (r: bool)
    ensures
        r == (a@ == b@),
{
    let x = str_chars(a);
    let y = str_chars(b);
    chars_eq(x.as_slice(), y.as_slice())
}

/// Whether two character slices are equal.
pub fn chars_eq(x: &[char], y: &[char]) -> (r: bool)
    ensures
        r == (x@ == y@),
{
    if x.len() != y.len() {
        return false;
    }
    let mut i: usize = 0;
    while i < x.len()
        invariant
            x@.len() == y@.len(),
            i <= x@.len(),
            forall|j: int| 0 <= j < i ==> x@[j] == y@[j],
        decreases x@.len() - i,
    {
        if x[i] != y[i] {
            return false;
        }
        i = i + 1;
    }
    assert(x@ =~= y@);
    true
}

/// Whether `s` starts with `prefix`.
pub open spec fn seq_starts_with<T>(s: Seq<T>, prefix: Seq<T>) -> bool {
    prefix.len() <= s.len() && s.subrange(0, prefix.len() as int) == prefix
}

/// Whether the character slice `x` starts with the characters of `p`.
pub fn chars_start_with(x: &[char], p: &[char]) -> (r: bool)
    ensures
        r == seq_starts_with(x@, p@),
{
    if p.len() > x.len() {
        return false;
    }
    let mut i: usize = 0;
    while i < p.len()
        invariant
            p@.len() <= x@.len(),
            i <= p@.len(),
            forall|j: int| 0 <= j < i ==> x@[j] == p@[j],
        decreases p@.len() - i,
    {
        if x[i] != p[i] {
            assert(x@.subrange(0, p@.len() as int)[i as int] != p@[i as int]);
            return false;
        }
        i = i + 1;
    }
    assert(x@.subrange(0, p@.len() as int) =~= p@);
    true
}

/// A copy of `x[from..to]`.
pub fn chars_slice(x: &[char], from: usize, to: usize) -> (r: Vec<char>)
    requires
        from <= to <= x@.len(),
    ensures
        r@ == x@.subrange(from as int, to as int),
{
    let mut r: Vec<char> = Vec::new();
    let mut i = from;
    while i < to
        invariant
            from <= i <= to <= x@.len(),
            r@ == x@.subrange(from as int, i as int),
        decreases to - i,
    {
        r.push(x[i]);
        i = i + 1;
        assert(r@ =~= x@.subrange(from as int, i as int));
    }
    r
}

/// Appends the characters of `src` to `dst`.
pub fn push_chars(dst: &mut Vec<char>, src: &[char])
    ensures
        final(dst)@ == old(dst)@ + src@,
{
    let mut i: usize = 0;
    while i < src.len()
        invariant
            i <= src@.len(),
            dst@ == old(dst)@ + src@.subrange(0, i as int),
        decreases src@.len() - i,
    {
        dst.push(src[i]);
        i = i + 1;
        assert(dst@ =~= old(dst)@ + src@.subrange(0, i as int));
    }
    assert(src@.subrange(0, src@.len() as int) =~= src@);
}

/// The decimal digit for `d`.
pub open spec fn digit_char(d: nat) -> char {
    seq!['0', '1', '2', '3', '4', '5', '6', '7', '8', '9'][d as int]
}

/// The decimal text of `n`, without leading zeros.
pub open spec fn decimal(n: nat) -> Seq<char>
    decreases n,
{
    if n < 10 {
        seq![digit_char(n)]
    } else {
        decimal(n / 10) + seq![digit_char(n % 10)]
    }
}

/// Appends the decimal text of `n` to `out`.
pub fn push_decimal(out: &mut Vec<char>, n: usize)
    ensures
        final(out)@ == old(out)@ + decimal(n as nat),
    decreases n,
{
    let digits: [char; 10] = ['0', '1', '2', '3', '4', '5', '6', '7', '8', '9'];
    assert(digits@ =~= seq!['0', '1', '2', '3', '4', '5', '6', '7', '8', '9']);
    if n >= 10 {
        push_decimal(out, n / 10);
    }
    let d: usize = n % 10;
    out.push(digits[d]);
    assert(final(out)@ =~= old(out)@ + decimal(n as nat)) by {
        if n >= 10 {
            assert(decimal(n as nat) == decimal((n / 10) as nat) + seq![digit_char((n % 10) as nat)]);
        }
    }
}

/// The decimal text of `n`.
pub fn decimal_string(n: usize) -> (r: String)
    ensures
        r@ == decimal(n as nat),
{
    let mut out: Vec<char> = Vec::new();
    push_decimal(&mut out, n);
    assert(out@ =~= decimal(n as nat));
    string_from_chars(out.as_slice())
}

/// Whether `a` comes strictly before `b` in the order of strings: by
/// character codes, a proper prefix first.
pub open spec fn chars_lt(a: Seq<char>, b: Seq<char>) -> bool
    decreases a.len(),
{
    if a.len() == 0 {
        b.len() > 0
    } else if b.len() == 0 {
        false
    } else if (a[0] as int) < (b[0] as int) {
        true
    } else if a[0] == b[0] {
        chars_lt(a.drop_first(), b.drop_first())
    } else {
        false
    }
}

/// No string comes before itself.
pub proof fn lemma_lt_irreflexive(a: Seq<char>)
    ensures
        !chars_lt(a, a),
    decreases a.len(),
{
    if a.len() > 0 {
        lemma_lt_irreflexive(a.drop_first());
    }
}

/// The order of strings is transitive.
pub proof fn lemma_lt_transitive(a: Seq<char>, b: Seq<char>, c: Seq<char>)
    requires
        chars_lt(a, b),
        chars_lt(b, c),
    ensures
        chars_lt(a, c),
    decreases a.len(),
{
    if a.len() > 0 && b.len() > 0 && c.len() > 0 {
        if a[0] == b[0] && b[0] == c[0] {
            lemma_lt_transitive(a.drop_first(), b.drop_first(), c.drop_first());
        }
    }
}

/// Of two different strings, one comes before the other.
pub proof fn lemma_lt_total(a: Seq<char>, b: Seq<char>)
    requires
        a != b,
    ensures
        chars_lt(a, b) || chars_lt(b, a),
    decreases a.len(),
{
    if a.len() > 0 && b.len() > 0 && a[0] == b[0] {
        if a.drop_first() == b.drop_first() {
            assert(a =~= seq![a[0]] + a.drop_first());
            assert(b =~= seq![b[0]] + b.drop_first());
        }
        lemma_lt_total(a.drop_first(), b.drop_first());
    } else if a.len() == 0 && b.len() == 0 {
        assert(a =~= b);
    }
}

/// Whether `a` comes strictly before `b`.
pub fn str_lt(a: &str, b: &str) -> (r: bool)
    ensures
        r == chars_lt(a@, b@),
{
    let x = str_chars(a);
    let y = str_chars(b);
    let mut i: usize = 0;
    proof {
        assert(x@.subrange(0, x@.len() as int) =~= x@);
        assert(y@.subrange(0, y@.len() as int) =~= y@);
    }
    while i < x.len() && i < y.len() && x[i] == y[i]
        invariant
            i <= x@.len(),
            i <= y@.len(),
            x@ == a@,
            y@ == b@,
            chars_lt(x@, y@) == chars_lt(x@.subrange(i as int, x@.len() as int), y@.subrange(
                i as int,
                y@.len() as int,
            )),
        decreases x@.len() - i,
    {
        proof {
            let xs = x@.subrange(i as int, x@.len() as int);
            let ys = y@.subrange(i as int, y@.len() as int);
            assert(xs.drop_first() =~= x@.subrange(i + 1, x@.len() as int));
            assert(ys.drop_first() =~= y@.subrange(i + 1, y@.len() as int));
        }
        i = i + 1;
    }
    let ghost xs = x@.subrange(i as int, x@.len() as int);
    let ghost ys = y@.subrange(i as int, y@.len() as int);
    if i == x.len() {
        assert(xs.len() == 0);
        i < y.len()
    } else if i == y.len() {
        assert(ys.len() == 0);
        false
    } else {
        assert(xs[0] == x@[i as int]);
        assert(ys[0] == y@[i as int]);
        x[i] < y[i]
    }
}

/// Whether a list of strings is in strictly increasing order.
pub open spec fn strictly_sorted(v: Seq<Seq<char>>) -> bool {
    forall|i: int, j: int| 0 <= i < j < v.len() ==> chars_lt(#[trigger] v[i], #[trigger] v[j])
}

/// The Unicode uppercase of `s`, as `str::to_uppercase` maps it.
pub uninterp spec fn uppercase_of(s: Seq<char>) -> Seq<char>;

/// `s` with `A`..`Z` made lowercase.
pub open spec fn ascii_lower(s: Seq<char>) -> Seq<char> {
    s.map_values(|c: char| if 'A' <= c && c <= 'Z' { ((c as u32) + 32) as char } else { c })
}

/// What uppercasing makes of `s`: on ASCII text, `a`..`z` made uppercase.
pub open spec fn upper_text(s: Seq<char>) -> Seq<char> {
    if all_ascii(s) {
        ascii_upper(s)
    } else {
        uppercase_of(s)
    }
}

/// Whether every character of `s` is ASCII.
pub open spec fn all_ascii(s: Seq<char>) -> bool {
    forall|i: int| 0 <= i < s.len() ==> (s[i] as u32) < 128
}

/// `s` with the ASCII lowercase letters made uppercase.
pub open spec fn ascii_upper(s: Seq<char>) -> Seq<char> {
    s.map_values(|c: char| if 'a' <= c && c <= 'z' { ((c as u32) - 32) as char } else { c })
}

/// `str::to_uppercase`: the Unicode uppercase of `s`; on ASCII text it
/// makes `a`..`z` uppercase and keeps every other character.
#[verifier::external_body]
pub(crate) fn to_uppercase(s: &str) -> (r: String)
    ensures
        r@ == uppercase_of(s@),
        all_ascii(s@) ==> r@ == ascii_upper(s@),
{
    s.to_uppercase()
}

} // verus!
