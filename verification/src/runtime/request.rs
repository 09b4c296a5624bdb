//! The body readers of an incoming `Request`: the body travels base64
//! encoded, and `text()`, `json()` and `arrayBuffer()` decode it.

use vstd::prelude::*;
use base64::Engine;
use crate::runtime::buffer::{utf8_lossy, from_utf8_lossy};

verus! {

/// The bytes the standard base64 alphabet (with padding) decodes `s` to,
/// or `None` where `s` is not such base64.
pub uninterp spec fn base64_decoded(s: Seq<char>) -> Option<Seq<u8>>;

/// `base64::engine::general_purpose::STANDARD.decode`.
#[verifier::external_body]
fn base64_decode(s: &str) -> (r: Option<Vec<u8>>)
    ensures
        r is Some ==> base64_decoded(s@) == Some(r->0@),
        r is None ==> base64_decoded(s@) is None,
{
    base64::engine::general_purpose::STANDARD.decode(s).ok()
}

/// The decoded body: `None` where there is no body or it is not base64.
pub open spec fn body_bytes(body: Option<Seq<char>>) -> Option<Seq<u8>> {
    match body {
        Some(b) => base64_decoded(b),
        None => None,
    }
}

/// The view of an optional string.
pub open spec fn opt_str(body: Option<&str>) -> Option<Seq<char>> {
    match body {
        Some(b) => Some(b@),
        None => None,
    }
}

/// `request.arrayBuffer()`: the decoded body, or no bytes where there is
/// no body or it does not decode.
pub fn request_array_buffer(body: Option<&str>) -> (r: Vec<u8>)
    ensures
        match body_bytes(opt_str(body)) {
            Some(d) => r@ == d,
            None => r@.len() == 0,
        },
{
    match body {
        Some(b) => match base64_decode(b) {
            Some(d) => d,
            None => Vec::new(),
        },
        None => Vec::new(),
    }
}

/// `request.text()`: the decoded body read as UTF-8 (invalid sequences
/// replaced), or the empty text where there is no body or it does not
/// decode.
pub fn request_text(body: Option<&str>) -> (r: String)
    ensures
        match body_bytes(opt_str(body)) {
            Some(d) => r@ == utf8_lossy(d),
            None => r@.len() == 0,
        },
{
    match body {
        Some(b) => match base64_decode(b) {
            Some(d) => from_utf8_lossy(d.as_slice()),
            None => String::new(),
        },
        None => String::new(),
    }
}

/// `request.json()`: the text handed to `JSON.parse`, or `None` (the
/// result is `null`) where there is no body or it does not decode.
pub fn request_json_text(body: Option<&str>) -> (r: Option<String>)
    ensures
        match body_bytes(opt_str(body)) {
            Some(d) => r is Some && r->0@ == utf8_lossy(d),
            None => r is None,
        },
{
    match body {
        Some(b) => match base64_decode(b) {
            Some(d) => Some(from_utf8_lossy(d.as_slice())),
            None => None,
        },
        None => None,
    }
}

} // verus!
