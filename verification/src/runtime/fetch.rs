//! Per-isolate state of `fetch()`: its abort signals.

use vstd::prelude::*;
use std::collections::HashMap;
use vstd::string::StringExecFns;
use crate::text::{str_chars, chars_start_with, seq_starts_with, to_uppercase, upper_text};

verus! {

broadcast use vstd::std_specs::hash::group_hash_axioms;

/// Abort signals of one isolate's fetches, by id; ids are handed out from 1
/// upwards.
pub struct FetchState {
    abort_signals: HashMap<u64, bool>,
    next_abort_id: u64,
}

impl FetchState {
    /// The registered signals by id: whether each was aborted.
    pub closed spec fn signals(&self) -> Map<u64, bool> {
        self.abort_signals@
    }

    /// The id handed out next.
    pub closed spec fn next(&self) -> u64 {
        self.next_abort_id
    }

    /// Whether every registered id lies in 1 up to the next id.
    pub closed spec fn wf(&self) -> bool {
        &&& self.next_abort_id >= 1
        &&& forall|id: u64| self.abort_signals@.contains_key(id) ==> 1 <= id < self.next_abort_id
    }

    /// No signals; the first id is 1. Creating the state cannot fail.
    pub fn new() -> (r: Result<Self, HttpClientError>)
        ensures
            r matches Ok(s) && s.wf() && s.signals() == Map::<u64, bool>::empty() && s.next() == 1,
    {
        Ok(FetchState { abort_signals: HashMap::new(), next_abort_id: 1 })
    }

    /// Registers a signal that has not fired, under a fresh id.
    pub fn register_abort_signal(&mut self) -> (id: u64)
        requires
            old(self).wf(),
            old(self).next() < u64::MAX,
        ensures
            final(self).wf(),
            id == old(self).next(),
            !old(self).signals().contains_key(id),
            final(self).signals() == old(self).signals().insert(id, false),
            final(self).next() == id + 1,
    {
        let id = self.next_abort_id;
        self.next_abort_id = id + 1;
        self.abort_signals.insert(id, false);
        id
    }

    /// Fires the signal `id`, if it is registered.
    pub fn abort(&mut self, id: u64)
        requires
            old(self).wf(),
        ensures
            final(self).wf(),
            final(self).signals() == if old(self).signals().contains_key(id) {
                old(self).signals().insert(id, true)
            } else {
                old(self).signals()
            },
            final(self).next() == old(self).next(),
    {
        if self.abort_signals.contains_key(&id) {
            self.abort_signals.insert(id, true);
        }
    }

    /// Whether the signal `id` fired; an unknown id counts as fired.
    pub fn is_aborted(&self, id: u64) -> (r: bool)
        ensures
            r == (!self.signals().contains_key(id) || self.signals()[id]),
    {
        match self.abort_signals.get(&id) {
            Some(b) => *b,
            None => true,
        }
    }
}

/// Why an outbound request failed.
#[derive(Debug)]
pub enum HttpClientError {
    /// The connection or transfer failed.
    Network(String),
    /// The URL was refused.
    InvalidUrl(String),
}

/// Whether `fetch()` refuses `url` before any request: local files, FTP and
/// script URLs.
pub open spec fn url_blocked(url: Seq<char>) -> bool {
    seq_starts_with(url, "file://"@) || seq_starts_with(url, "ftp://"@) || seq_starts_with(
        url,
        "javascript:"@,
    )
}

/// Refuses a URL whose scheme `fetch()` does not allow.
pub fn check_fetch_url(url: &str) -> (r: Result<(), HttpClientError>)
    ensures
        r is Ok <==> !url_blocked(url@),
        r is Err ==> r->Err_0 is InvalidUrl && r->Err_0->InvalidUrl_0@ == "URL scheme not allowed: "@ + url@,
{
    let chars = str_chars(url);
    let file = str_chars("file://");
    let ftp = str_chars("ftp://");
    let js = str_chars("javascript:");
    if chars_start_with(chars.as_slice(), file.as_slice()) || chars_start_with(chars.as_slice(), ftp.as_slice())
        || chars_start_with(chars.as_slice(), js.as_slice()) {
        let mut msg = String::from_str("URL scheme not allowed: ");
        msg.append(url);
        Err(HttpClientError::InvalidUrl(msg))
    } else {
        Ok(())
    }
}

/// The body of an outbound request.
#[derive(Debug)]
pub enum BodyType {
    /// No body.
    NoBody,
    /// A body of known bytes.
    Bytes(Vec<u8>),
    /// A streamed body.
    Stream,
}

impl BodyType {
    /// Whether the body is streamed.
    pub fn is_stream(&self) -> (r: bool)
        ensures
            r == (self is Stream),
    {
        match self {
            BodyType::Stream => true,
            _ => false,
        }
    }

    /// Whether there is no body.
    pub fn is_none(&self) -> (r: bool)
        ensures
            r == (self is NoBody),
    {
        match self {
            BodyType::NoBody => true,
            _ => false,
        }
    }

    /// The body's length where it is known: only for bytes.
    pub fn content_length(&self) -> (r: Option<usize>)
        ensures
            match self {
                BodyType::Bytes(b) => r == Some(b@.len() as usize),
                _ => r is None,
            },
    {
        match self {
            BodyType::Bytes(b) => Some(b.len()),
            _ => None,
        }
    }
}

/// The response `fetch()` answers for now: status 200 `OK` with the
/// request's URL, and the method it was asked with.
#[derive(Debug)]
pub struct FetchResponseInit {
    pub status: u16,
    pub ok: bool,
    pub status_text: String,
    pub url: String,
    /// The request method, uppercased; `GET` by default.
    pub method: String,
}

/// `fetch(url, { method })`: a URL with a refused scheme is rejected with
/// `URL scheme not allowed: <url>`; otherwise the answer is status 200 `OK`
/// for that URL, and the method is the given one uppercased, `GET` where
/// none is given.
pub fn fetch_response(url: &str, method: Option<&str>) -> (r: Result<FetchResponseInit, String>)
    ensures
        url_blocked(url@) ==> r is Err && r->Err_0@ == "URL scheme not allowed: "@ + url@,
        !url_blocked(url@) ==> r is Ok && r->Ok_0.status == 200 && r->Ok_0.ok
            && r->Ok_0.status_text@ == "OK"@ && r->Ok_0.url@ == url@
            && r->Ok_0.method@ == (match method {
                Some(m) => upper_text(m@),
                None => "GET"@,
            }),
{
    match check_fetch_url(url) {
        Err(_) => {
            let mut msg = String::from_str("URL scheme not allowed: ");
            msg.append(url);
            Err(msg)
        },
        Ok(()) => {
            let m = match method {
                Some(m) => to_uppercase(m),
                None => String::from_str("GET"),
            };
            Ok(FetchResponseInit {
                status: 200,
                ok: true,
                status_text: String::from_str("OK"),
                url: url.to_owned(),
                method: m,
            })
        },
    }
}

} // verus!
