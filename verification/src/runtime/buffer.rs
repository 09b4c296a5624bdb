//! The byte and text conversions of `TextEncoder`, `TextDecoder` and
//! `Buffer`, and the fields of a `DOMException`.

use vstd::prelude::*;
use vstd::string::StringExecFns;
use crate::text::{str_chars, ascii_lower};
use crate::sliver::json::utf8_bytes;

verus! {

/// The text `String::from_utf8_lossy` reads from `b`.
pub uninterp spec fn utf8_lossy(b: Seq<u8>) -> Seq<char>;

/// `String::from_utf8_lossy`: the text of `b`, each invalid sequence
/// replaced by U+FFFD; valid UTF-8 reads as what it encodes.
#[verifier::external_body]
pub(crate) fn from_utf8_lossy(b: &[u8]) -> (r: String)
    ensures
        r@ == utf8_lossy(b@),
        vstd::utf8::valid_utf8(b@) ==> r@ == vstd::utf8::decode_utf8(b@),
{
    String::from_utf8_lossy(b).into_owned()
}

/// `TextEncoder.encode`: the UTF-8 bytes of `text`.
pub fn text_encode(text: &str) -> (r: Vec<u8>)
    ensures
        r@ == vstd::utf8::encode_utf8(text@),
{
    utf8_bytes(text)
}

/// `TextDecoder.decode` and `Buffer.toString`: the bytes read as UTF-8,
/// each invalid sequence replaced by U+FFFD.
pub fn text_decode(bytes: &[u8]) -> (r: String)
    ensures
        r@ == utf8_lossy(bytes@),
        vstd::utf8::valid_utf8(bytes@) ==> r@ == vstd::utf8::decode_utf8(bytes@),
{
    from_utf8_lossy(bytes)
}

/// What `TextEncoder` makes of a text is valid UTF-8, and `TextDecoder`
/// reads the same text back from it.
pub proof fn law_text_round_trip(text: Seq<char>)
    ensures
        vstd::utf8::valid_utf8(vstd::utf8::encode_utf8(text)),
        vstd::utf8::decode_utf8(vstd::utf8::encode_utf8(text)) == text,
{
    vstd::utf8::encode_utf8_valid_utf8(text);
    vstd::utf8::encode_utf8_decode_utf8(text);
}

/// `Buffer.alloc(size, fill)`: `size` bytes, each `fill`.
pub fn buffer_alloc(size: usize, fill: u8) -> (r: Vec<u8>)
    ensures
        r@.len() == size,
        forall|i: int| 0 <= i < size ==> r@[i] == fill,
{
    let mut out: Vec<u8> = Vec::new();
    let mut i: usize = 0;
    while i < size
        invariant
            i <= size,
            out@.len() == i,
            forall|j: int| 0 <= j < i ==> out@[j] == fill,
        decreases size - i,
    {
        out.push(fill);
        i = i + 1;
    }
    out
}

/// The value of an ASCII hexadecimal digit.
pub open spec fn hex_value(c: u8) -> Option<u8> {
    if 0x30 <= c <= 0x39 {
        Some((c - 0x30) as u8)
    } else if 0x61 <= c <= 0x66 {
        Some((c - 0x61 + 10) as u8)
    } else if 0x41 <= c <= 0x46 {
        Some((c - 0x41 + 10) as u8)
    } else {
        None
    }
}

/// The byte `u8::from_str_radix(_, 16)` reads from the two-byte text
/// `a b`: two hex digits, or `+` and one digit.
pub open spec fn hex_pair(a: u8, b: u8) -> Option<u8> {
    match (hex_value(a), hex_value(b)) {
        (Some(x), Some(y)) => Some((x * 16 + y) as u8),
        (None, Some(y)) => if a == 0x2b {
            Some(y)
        } else {
            None
        },
        _ => None,
    }
}

/// The bytes of best-effort hex decoding: each two-byte pair that reads as
/// a byte gives it; other pairs and an odd last byte give nothing.
pub open spec fn hex_decode(b: Seq<u8>) -> Seq<u8>
    decreases b.len(),
{
    if b.len() < 2 {
        Seq::empty()
    } else {
        let head = match hex_pair(b[0], b[1]) {
            Some(v) => seq![v],
            None => Seq::empty(),
        };
        head + hex_decode(b.subrange(2, b.len() as int))
    }
}

fn hex_digit(c: u8) -> (r: Option<u8>)
    ensures
        r == hex_value(c),
{
    if 0x30 <= c && c <= 0x39 {
        Some(c - 0x30)
    } else if 0x61 <= c && c <= 0x66 {
        Some(c - 0x61 + 10)
    } else if 0x41 <= c && c <= 0x46 {
        Some(c - 0x41 + 10)
    } else {
        None
    }
}

fn pair_byte(a: u8, b: u8) -> (r: Option<u8>)
    ensures
        r == hex_pair(a, b),
{
    match (hex_digit(a), hex_digit(b)) {
        (Some(x), Some(y)) => Some(x * 16 + y),
        (None, Some(y)) => if a == 0x2b {
            Some(y)
        } else {
            None
        },
        _ => None,
    }
}

proof fn lemma_hex_decode_step(b: Seq<u8>, i: int)
    requires
        0 <= i,
        i + 2 <= b.len(),
        i % 2 == 0,
    ensures
        hex_decode(b.subrange(i, b.len() as int)) == (match hex_pair(b[i], b[i + 1]) {
            Some(v) => seq![v],
            None => Seq::<u8>::empty(),
        }) + hex_decode(b.subrange(i + 2, b.len() as int)),
{
    let t = b.subrange(i, b.len() as int);
    assert(t.subrange(2, t.len() as int) =~= b.subrange(i + 2, b.len() as int));
}

/// Hex decoding as `Buffer.from(text, 'hex')` does it, over the UTF-8
/// bytes of the text.
fn hex_bytes(b: &[u8]) -> (r: Vec<u8>)
    ensures
        r@ == hex_decode(b@),
{
    let mut out: Vec<u8> = Vec::new();
    let mut i: usize = 0;
    assert(b@.subrange(0, b@.len() as int) =~= b@);
    assert(out@ + hex_decode(b@) =~= hex_decode(b@));
    while b.len() - i >= 2
        invariant
            i <= b@.len(),
            i % 2 == 0,
            out@ + hex_decode(b@.subrange(i as int, b@.len() as int)) == hex_decode(b@),
        decreases b@.len() - i,
    {
        proof {
            lemma_hex_decode_step(b@, i as int);
        }
        let ghost before = out@;
        match pair_byte(b[i], b[i + 1]) {
            Some(v) => {
                out.push(v);
                assert(out@ + hex_decode(b@.subrange(i + 2, b@.len() as int)) =~= before + (seq![v]
                    + hex_decode(b@.subrange(i + 2, b@.len() as int))));
            },
            None => {
                assert(before + hex_decode(b@.subrange(i + 2, b@.len() as int)) =~= before + (Seq::<u8>::empty()
                    + hex_decode(b@.subrange(i + 2, b@.len() as int))));
            },
        }
        i = i + 2;
    }
    assert(hex_decode(b@.subrange(i as int, b@.len() as int)) =~= Seq::<u8>::empty());
    assert(out@ =~= out@ + Seq::<u8>::empty());
    out
}

/// Whether the encoding name `enc`, ASCII letters lowercased, is `hex`.
pub open spec fn is_hex_encoding(enc: Seq<char>) -> bool {
    ascii_lower(enc) == "hex"@
}

fn encoding_is_hex(enc: &str) -> (r: bool)
    ensures
        r == is_hex_encoding(enc@),
{
    proof {
        reveal_strlit("hex");
    }
    let c = str_chars(enc);
    if c.len() != 3 {
        assert(ascii_lower(enc@).len() != "hex"@.len());
        return false;
    }
    let a = c[0];
    let b = c[1];
    let d = c[2];
    let r = (a == 'h' || a == 'H') && (b == 'e' || b == 'E') && (d == 'x' || d == 'X');
    proof {
        let l = ascii_lower(enc@);
        if r {
            assert(l =~= "hex"@);
        } else {
            assert(l[0] != 'h' || l[1] != 'e' || l[2] != 'x');
        }
    }
    r
}

/// `Buffer.from(text, encoding)` for a string: `hex` (any ASCII case)
/// decodes hex pairs best-effort; every other encoding gives the UTF-8
/// bytes of the text.
pub fn buffer_from_string(text: &str, encoding: &str) -> (r: Vec<u8>)
    ensures
        is_hex_encoding(encoding@) ==> r@ == hex_decode(vstd::utf8::encode_utf8(text@)),
        !is_hex_encoding(encoding@) ==> r@ == vstd::utf8::encode_utf8(text@),
{
    let bytes = utf8_bytes(text);
    if encoding_is_hex(encoding) {
        hex_bytes(bytes.as_slice())
    } else {
        bytes
    }
}

/// The fields of a `DOMException`.
#[derive(Debug)]
pub struct DomException {
    pub message: String,
    pub name: String,
    pub stack: String,
}

/// `new DOMException(message, name)`: the message (empty when not given),
/// the name (`Error` when not given) and the stack `DOMException: <message>`.
pub fn dom_exception(message: Option<String>, name: Option<String>) -> (r: DomException)
    ensures
        r.message@ == (match message {
            Some(m) => m@,
            None => Seq::<char>::empty(),
        }),
        r.name@ == (match name {
            Some(n) => n@,
            None => "Error"@,
        }),
        r.stack@ == "DOMException: "@ + r.message@,
{
    let message = match message {
        Some(m) => m,
        None => String::new(),
    };
    let name = match name {
        Some(n) => n,
        None => String::from_str("Error"),
    };
    let mut stack = String::from_str("DOMException: ");
    stack.append(message.as_str());
    DomException { message, name, stack }
}

/// The views of a list of strings.
pub open spec fn strings_view(v: Seq<String>) -> Seq<Seq<char>> {
    v.map_values(|x: String| x@)
}

/// The parts written one after another.
pub open spec fn concat_all(parts: Seq<Seq<char>>) -> Seq<char>
    decreases parts.len(),
{
    if parts.len() == 0 {
        Seq::empty()
    } else {
        concat_all(parts.drop_last()) + parts.last()
    }
}

/// The UTF-8 length of the parts, added up.
pub open spec fn utf8_total(parts: Seq<Seq<char>>) -> nat
    decreases parts.len(),
{
    if parts.len() == 0 {
        0
    } else {
        utf8_total(parts.drop_last()) + vstd::utf8::encode_utf8(parts.last()).len()
    }
}

/// The fields of a `Blob` built from string parts.
#[derive(Debug)]
pub struct BlobInit {
    /// The size in bytes: the UTF-8 length of the parts.
    pub size: usize,
    /// The media type, as given.
    pub blob_type: String,
    /// The parts joined.
    pub text: String,
}

/// `new Blob(parts, { type })`: the parts joined, their total UTF-8
/// length, and the type as given.
pub fn blob_init(parts: &Vec<String>, blob_type: String) -> (r: BlobInit)
    requires
        utf8_total(strings_view(parts@)) <= usize::MAX,
    ensures
        r.size == utf8_total(strings_view(parts@)),
        r.text@ == concat_all(strings_view(parts@)),
        r.blob_type@ == blob_type@,
{
    let ghost pv = strings_view(parts@);
    let mut size: usize = 0;
    let mut text = String::new();
    let mut i: usize = 0;
    proof {
        lemma_utf8_total_prefix(pv, 0, pv.len() as int);
        assert(pv.subrange(0, 0) =~= Seq::<Seq<char>>::empty());
    }
    while i < parts.len()
        invariant
            i <= parts@.len(),
            pv == strings_view(parts@),
            utf8_total(pv) <= usize::MAX,
            size == utf8_total(pv.subrange(0, i as int)),
            text@ == concat_all(pv.subrange(0, i as int)),
        decreases parts@.len() - i,
    {
        let part = parts[i].as_str();
        assert(pv.subrange(0, i + 1).drop_last() =~= pv.subrange(0, i as int));
        assert(pv[i as int] == part@);
        proof {
            lemma_utf8_total_prefix(pv, i + 1, pv.len() as int);
            assert(pv.subrange(0, pv.len() as int) =~= pv);
            assert(pv.subrange(0, i + 1).last() == pv[i as int]);
            assert(utf8_total(pv.subrange(0, i + 1)) == utf8_total(pv.subrange(0, i as int))
                + vstd::utf8::encode_utf8(part@).len());
        }
        let n = part.as_bytes().len();
        assert(n == vstd::utf8::encode_utf8(part@).len());
        size = size + n;
        text.append(part);
        i = i + 1;
    }
    assert(pv.subrange(0, parts@.len() as int) =~= pv);
    BlobInit { size, blob_type, text }
}

proof fn lemma_utf8_total_prefix(v: Seq<Seq<char>>, i: int, j: int)
    requires
        0 <= i <= j <= v.len(),
    ensures
        utf8_total(v.subrange(0, i)) <= utf8_total(v.subrange(0, j)),
    decreases j - i,
{
    if i < j {
        lemma_utf8_total_prefix(v, i, j - 1);
        assert(v.subrange(0, j).drop_last() =~= v.subrange(0, j - 1));
    }
}

/// The arguments of a `console` call written out, separated by spaces.
pub open spec fn spaced(parts: Seq<Seq<char>>) -> Seq<char>
    decreases parts.len(),
{
    if parts.len() == 0 {
        Seq::empty()
    } else if parts.len() == 1 {
        parts[0]
    } else {
        spaced(parts.drop_last()) + " "@ + parts.last()
    }
}

/// The line a `console` call prints: its arguments as text, separated by
/// single spaces.
pub fn format_console_args(parts: &Vec<String>) -> (r: String)
    ensures
        r@ == spaced(strings_view(parts@)),
{
    let ghost pv = strings_view(parts@);
    let mut out = String::new();
    let mut i: usize = 0;
    assert(pv.subrange(0, 0) =~= Seq::<Seq<char>>::empty());
    while i < parts.len()
        invariant
            i <= parts@.len(),
            pv == strings_view(parts@),
            out@ == spaced(pv.subrange(0, i as int)),
        decreases parts@.len() - i,
    {
        let ghost sub = pv.subrange(0, i + 1);
        assert(sub.drop_last() =~= pv.subrange(0, i as int));
        assert(pv[i as int] == parts@[i as int]@);
        if i > 0 {
            out.append(" ");
        } else {
            assert(sub[0] == pv[0]);
        }
        out.append(parts[i].as_str());
        i = i + 1;
    }
    assert(pv.subrange(0, parts@.len() as int) =~= pv);
    out
}

} // verus!
