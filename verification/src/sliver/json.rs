//! JSON values as plain data: text output for the metadata document, and
//! parsing through `serde_json`.

use vstd::prelude::*;
use crate::text::{str_chars, push_chars};

verus! {

/// A JSON value. Numbers keep their textual form.
#[derive(Debug)]
pub enum JsonValue {
    Null,
    Bool(bool),
    Number(String),
    Str(String),
    Array(Vec<JsonValue>),
    Object(Vec<(String, JsonValue)>),
}

/// The hexadecimal digit of `d` (lower case).
pub open spec fn hex_digit(d: int) -> char {
    seq!['0', '1', '2', '3', '4', '5', '6', '7', '8', '9', 'a', 'b', 'c', 'd', 'e', 'f'][d]
}

/// The JSON escape of one character inside a string literal: quote and
/// backslash are escaped, the usual control characters get their short
/// form, other control characters a `\u00XX` form; everything else stands
/// as itself.
pub open spec fn escape_char(c: char) -> Seq<char> {
    if c == '"' {
        seq!['\\', '"']
    } else if c == '\\' {
        seq!['\\', '\\']
    } else if c == '\n' {
        seq!['\\', 'n']
    } else if c == '\r' {
        seq!['\\', 'r']
    } else if c == '\t' {
        seq!['\\', 't']
    } else if c == '\u{8}' {
        seq!['\\', 'b']
    } else if c == '\u{c}' {
        seq!['\\', 'f']
    } else if (c as int) < 0x20 {
        seq!['\\', 'u', '0', '0', hex_digit((c as int) / 16), hex_digit((c as int) % 16)]
    } else {
        seq![c]
    }
}

/// The escaped form of all characters of `s`.
pub open spec fn escape_str(s: Seq<char>) -> Seq<char>
    decreases s.len(),
{
    if s.len() == 0 {
        Seq::empty()
    } else {
        escape_str(s.drop_last()) + escape_char(s.last())
    }
}

/// The JSON string literal for `s`.
pub open spec fn quoted(s: Seq<char>) -> Seq<char> {
    seq!['"'] + escape_str(s) + seq!['"']
}

/// The JSON literal for an optional string: the string, or `null`.
pub open spec fn opt_quoted(o: Option<Seq<char>>) -> Seq<char> {
    match o {
        Some(s) => quoted(s),
        None => seq!['n', 'u', 'l', 'l'],
    }
}

/// The members `"key":"value"` of an object of strings, comma separated.
pub open spec fn string_members(m: Seq<(Seq<char>, Seq<char>)>) -> Seq<char>
    decreases m.len(),
{
    if m.len() == 0 {
        Seq::empty()
    } else if m.len() == 1 {
        quoted(m[0].0) + seq![':'] + quoted(m[0].1)
    } else {
        string_members(m.drop_last()) + seq![','] + quoted(m.last().0) + seq![':'] + quoted(
            m.last().1,
        )
    }
}

/// Appends the literal text of `s` to `out`.
pub fn push_text(out: &mut Vec<char>, s: &str)
    ensures
        final(out)@ == old(out)@ + s@,
{
    let cs = str_chars(s);
    push_chars(out, cs.as_slice());
}

/// The hexadecimal digit of `d`.
fn hex_char(d: u32) -> (c: char)
    requires
        d < 16,
    ensures
        c == hex_digit(d as int),
{
    let digits: [char; 16] = ['0', '1', '2', '3', '4', '5', '6', '7', '8', '9', 'a', 'b', 'c', 'd', 'e', 'f'];
    let i: usize = d as usize;
    let c = digits[i];
    assert(digits@ =~= seq!['0', '1', '2', '3', '4', '5', '6', '7', '8', '9', 'a', 'b', 'c', 'd', 'e', 'f']);
    c
}

/// Appends the escape of `c` to `out`.
fn push_escaped_char(out: &mut Vec<char>, c: char)
    ensures
        final(out)@ == old(out)@ + escape_char(c),
{
    let ghost start = out@;
    if c == '"' {
        out.push('\\');
        out.push('"');
    } else if c == '\\' {
        out.push('\\');
        out.push('\\');
    } else if c == '\n' {
        out.push('\\');
        out.push('n');
    } else if c == '\r' {
        out.push('\\');
        out.push('r');
    } else if c == '\t' {
        out.push('\\');
        out.push('t');
    } else if c == '\u{8}' {
        out.push('\\');
        out.push('b');
    } else if c == '\u{c}' {
        out.push('\\');
        out.push('f');
    } else if (c as u32) < 0x20 {
        let v: u32 = c as u32;
        out.push('\\');
        out.push('u');
        out.push('0');
        out.push('0');
        out.push(hex_char(v / 16));
        out.push(hex_char(v % 16));
    } else {
        out.push(c);
    }
    assert(out@ =~= start + escape_char(c));
}

/// Appends the JSON string literal of `s` to `out`.
pub fn push_quoted(out: &mut Vec<char>, s: &str)
    ensures
        final(out)@ == old(out)@ + quoted(s@),
{
    let cs = str_chars(s);
    out.push('"');
    let ghost base = out@;
    let mut i: usize = 0;
    while i < cs.len()
        invariant
            i <= cs@.len(),
            cs@ == s@,
            out@ == base + escape_str(cs@.subrange(0, i as int)),
        decreases cs@.len() - i,
    {
        push_escaped_char(out, cs[i]);
        assert(cs@.subrange(0, i + 1).drop_last() =~= cs@.subrange(0, i as int));
        i = i + 1;
    }
    assert(cs@.subrange(0, cs@.len() as int) =~= cs@);
    out.push('"');
    assert(out@ =~= old(out)@ + quoted(s@));
}

/// Appends the JSON literal of an optional string to `out`.
pub fn push_opt_quoted(out: &mut Vec<char>, o: &Option<String>)
    ensures
        final(out)@ == old(out)@ + opt_quoted(
            match o {
                Some(s) => Some(s@),
                None => None,
            },
        ),
{
    match o {
        Some(s) => push_quoted(out, s.as_str()),
        None => {
            let ghost start = out@;
            out.push('n');
            out.push('u');
            out.push('l');
            out.push('l');
            assert(out@ =~= start + seq!['n', 'u', 'l', 'l']);
        },
    }
}

/// The view of a list of string pairs.
pub open spec fn pairs_view(m: Seq<(String, String)>) -> Seq<(Seq<char>, Seq<char>)> {
    m.map_values(|p: (String, String)| (p.0@, p.1@))
}

/// Appends the members of an object of strings to `out`.
pub fn push_string_members(out: &mut Vec<char>, m: &Vec<(String, String)>)
    ensures
        final(out)@ == old(out)@ + string_members(pairs_view(m@)),
{
    let ghost base = out@;
    let mut i: usize = 0;
    while i < m.len()
        invariant
            i <= m@.len(),
            out@ == base + string_members(pairs_view(m@.subrange(0, i as int))),
        decreases m@.len() - i,
    {
        let ghost before = out@;
        let ghost pre = pairs_view(m@.subrange(0, i as int));
        let ghost next = pairs_view(m@.subrange(0, i + 1));
        assert(next.drop_last() =~= pre);
        assert(next.last() == (m@[i as int].0@, m@[i as int].1@));
        if i > 0 {
            out.push(',');
        }
        push_quoted(out, m[i].0.as_str());
        out.push(':');
        push_quoted(out, m[i].1.as_str());
        if i == 0 {
            assert(out@ =~= base + string_members(next));
        } else {
            assert(out@ =~= before + seq![','] + quoted(next.last().0) + seq![':'] + quoted(
                next.last().1,
            ));
            assert(out@ =~= base + string_members(next));
        }
        i = i + 1;
    }
    assert(m@.subrange(0, m@.len() as int) =~= m@);
}


/// A copy of a list of string pairs.
pub fn clone_pairs(v: &Vec<(String, String)>) -> (r: Vec<(String, String)>)
    ensures
        pairs_view(r@) == pairs_view(v@),
{
    let mut out: Vec<(String, String)> = Vec::new();
    let mut i: usize = 0;
    while i < v.len()
        invariant
            i <= v@.len(),
            pairs_view(out@) == pairs_view(v@.subrange(0, i as int)),
        decreases v@.len() - i,
    {
        let ghost before = out@;
        let pair = (v[i].0.clone(), v[i].1.clone());
        out.push(pair);
        assert(pairs_view(out@) =~= pairs_view(before).push((pair.0@, pair.1@)));
        assert(v@.subrange(0, i + 1) =~= v@.subrange(0, i as int).push(v@[i as int]));
        assert(pairs_view(v@.subrange(0, i + 1)) =~= pairs_view(v@.subrange(0, i as int)).push(
            (v@[i as int].0@, v@[i as int].1@),
        ));
        i = i + 1;
    }
    assert(v@.subrange(0, v@.len() as int) =~= v@);
    out
}

/// The characters of a string, encoded as UTF-8 bytes.
pub fn utf8_bytes(s: &str) -> (r: Vec<u8>)
    ensures
        r@ == vstd::utf8::encode_utf8(s@),
{
    let b = s.as_bytes();
    let mut r: Vec<u8> = Vec::new();
    let mut i: usize = 0;
    while i < b.len()
        invariant
            i <= b@.len(),
            b@ == vstd::utf8::encode_utf8(s@),
            r@ == b@.subrange(0, i as int),
        decreases b@.len() - i,
    {
        r.push(b[i]);
        i = i + 1;
        assert(r@ =~= b@.subrange(0, i as int));
    }
    assert(b@.subrange(0, b@.len() as int) =~= b@);
    r
}

/// What `serde_json` reads from a byte text: the value, or `None` where the
/// text is not JSON.
pub uninterp spec fn json_parse(text: Seq<u8>) -> Option<JsonValue>;

#[verifier::external_type_specification]
#[verifier::external_body]
pub struct ExJsonValue(serde_json::Value);

/// Turns a `serde_json` value into a [`JsonValue`], one variant for one
/// variant; numbers keep the text `serde_json` prints for them.
#[verifier::external_body]
fn json_from_serde(v: serde_json::Value) -> JsonValue {
    match v {
        serde_json::Value::Null => JsonValue::Null,
        serde_json::Value::Bool(b) => JsonValue::Bool(b),
        serde_json::Value::Number(n) => JsonValue::Number(n.to_string()),
        serde_json::Value::String(s) => JsonValue::Str(s),
        serde_json::Value::Array(a) => JsonValue::Array(a.into_iter().map(json_from_serde).collect()),
        serde_json::Value::Object(m) => JsonValue::Object(
            m.into_iter().map(|(k, x)| (k, json_from_serde(x))).collect(),
        ),
    }
}

/// Parses `text` with `serde_json::from_slice` into a `serde_json::Value`
/// and hands it back as a [`JsonValue`]. The contract names the outcome
/// [`json_parse`] of the text and says nothing more of it.
#[verifier::external_body]
pub(crate) fn parse_json(text: &[u8]) -> (r: Option<JsonValue>)
    ensures
        r == json_parse(text@),
{
    match serde_json::from_slice::<serde_json::Value>(text) {
        Ok(v) => Some(json_from_serde(v)),
        Err(_) => None,
    }
}

} // verus!
