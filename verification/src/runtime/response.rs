//! What the request handler reads from the response object a script
//! returns: its status, and which properties of its headers are headers.

use vstd::prelude::*;
use crate::text::{str_chars, str_eq, seq_starts_with, chars_start_with};

verus! {

/// The status of a response: the integer its `status` property converts to,
/// kept to 16 bits as a cast to `u16` keeps it, or 200 where the property is
/// missing, `null`, `undefined` or not convertible.
pub fn response_status(status: Option<i64>) -> (r: u16)
    ensures
        r == match status {
            Some(i) => i as u16,
            None => 200u16,
        },
{
    match status {
        Some(i) => i as u16,
        None => 200,
    }
}

/// Whether a property of a headers object names a header: internal
/// properties (starting with `__`) and the methods `set`, `get` and
/// `forEach` do not.
pub open spec fn header_property(name: Seq<char>) -> bool {
    !seq_starts_with(name, seq!['_', '_']) && name != "set"@ && name != "get"@ && name != "forEach"@
}

/// Whether the property `name` of a headers object is copied as a header.
pub fn is_header_property(name: &str) -> (r: bool)
    ensures
        r == header_property(name@),
{
    let c = str_chars(name);
    let p: Vec<char> = vec!['_', '_'];
    assert(p@ =~= seq!['_', '_']);
    !chars_start_with(c.as_slice(), p.as_slice()) && !str_eq(name, "set") && !str_eq(name, "get")
        && !str_eq(name, "forEach")
}

} // verus!
