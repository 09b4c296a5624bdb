//! `node:zlib`: one-shot gzip, zlib, raw deflate and brotli codecs, and the
//! table of incremental codec handles scripts hold by number.

use vstd::prelude::*;
use vstd::string::StringExecFns;
use std::collections::HashMap;
use std::io::Write;
use crate::text::str_eq;

verus! {

broadcast use vstd::std_specs::hash::group_hash_axioms;

/// A codec's output.
pub open spec fn produced(v: Seq<u8>) -> Result<Seq<u8>, Seq<char>> {
    Ok(v)
}

/// A codec's error text.
pub open spec fn failed(e: Seq<char>) -> Result<Seq<u8>, Seq<char>> {
    Err(e)
}

/// The gzip encoding of `data` at compression level `level`, or the text of
/// the encoder's error.
pub uninterp spec fn gzip_of(data: Seq<u8>, level: u32) -> Result<Seq<u8>, Seq<char>>;

/// `flate2::write::GzEncoder` at `Compression::new(level)` over a `Vec`:
/// `write_all(data)` then `finish`. Levels above 9 are left out: the
/// miniz_oxide backend asserts a level of at most 10.
#[verifier::external_body]
fn gzip_encode(data: &[u8], level: u32) -> (r: Result<Vec<u8>, String>)
    requires
        level <= 9,
    ensures
        r is Ok ==> gzip_of(data@, level) == produced(r->Ok_0@),
        r is Err ==> gzip_of(data@, level) == failed(r->Err_0@),
{
    let mut e = flate2::write::GzEncoder::new(Vec::new(), flate2::Compression::new(level));
    if let Err(err) = e.write_all(data) {
        return Err(err.to_string());
    }
    match e.finish() {
        Ok(v) => Ok(v),
        Err(err) => Err(err.to_string()),
    }
}

/// The gzip decoding of `data`, or the text of the decoder's error.
pub uninterp spec fn gunzip_of(data: Seq<u8>) -> Result<Seq<u8>, Seq<char>>;

/// `flate2::write::GzDecoder` over a `Vec`: `write_all(data)` then `finish`.
/// What the encoder produced at a level of at most 9 decodes to the
/// encoded bytes.
#[verifier::external_body]
fn gzip_decode(data: &[u8]) -> (r: Result<Vec<u8>, String>)
    ensures
        r is Ok ==> gunzip_of(data@) == produced(r->Ok_0@),
        r is Err ==> gunzip_of(data@) == failed(r->Err_0@),
        forall|p: Seq<u8>, l: u32| l <= 9 && #[trigger] gzip_of(p, l) == produced(data@) ==> r is Ok && r->Ok_0@ == p,
{
    let mut d = flate2::write::GzDecoder::new(Vec::new());
    if let Err(err) = d.write_all(data) {
        return Err(err.to_string());
    }
    match d.finish() {
        Ok(v) => Ok(v),
        Err(err) => Err(err.to_string()),
    }
}

/// The zlib encoding of `data` at level `level`, or the encoder's error.
pub uninterp spec fn deflate_of(data: Seq<u8>, level: u32) -> Result<Seq<u8>, Seq<char>>;

/// `flate2::write::ZlibEncoder` at `Compression::new(level)` over a `Vec`:
/// `write_all(data)` then `finish`. Levels above 9 are left out: the
/// miniz_oxide backend asserts a level of at most 10.
#[verifier::external_body]
fn deflate_encode(data: &[u8], level: u32) -> (r: Result<Vec<u8>, String>)
    requires
        level <= 9,
    ensures
        r is Ok ==> deflate_of(data@, level) == produced(r->Ok_0@),
        r is Err ==> deflate_of(data@, level) == failed(r->Err_0@),
{
    let mut e = flate2::write::ZlibEncoder::new(Vec::new(), flate2::Compression::new(level));
    if let Err(err) = e.write_all(data) {
        return Err(err.to_string());
    }
    match e.finish() {
        Ok(v) => Ok(v),
        Err(err) => Err(err.to_string()),
    }
}

/// The zlib decoding of `data`, or the decoder's error.
pub uninterp spec fn inflate_of(data: Seq<u8>) -> Result<Seq<u8>, Seq<char>>;

/// `flate2::write::ZlibDecoder` over a `Vec`: `write_all(data)` then
/// `finish`. What the encoder produced at a level of at most 9 decodes to the
/// encoded bytes.
#[verifier::external_body]
fn inflate_decode(data: &[u8]) -> (r: Result<Vec<u8>, String>)
    ensures
        r is Ok ==> inflate_of(data@) == produced(r->Ok_0@),
        r is Err ==> inflate_of(data@) == failed(r->Err_0@),
        forall|p: Seq<u8>, l: u32| l <= 9 && #[trigger] deflate_of(p, l) == produced(data@) ==> r is Ok && r->Ok_0@ == p,
{
    let mut d = flate2::write::ZlibDecoder::new(Vec::new());
    if let Err(err) = d.write_all(data) {
        return Err(err.to_string());
    }
    match d.finish() {
        Ok(v) => Ok(v),
        Err(err) => Err(err.to_string()),
    }
}

/// The raw deflate encoding of `data` at level `level`, or the encoder's
/// error.
pub uninterp spec fn deflate_raw_of(data: Seq<u8>, level: u32) -> Result<Seq<u8>, Seq<char>>;

/// `flate2::write::DeflateEncoder` at `Compression::new(level)` over a
/// `Vec`: `write_all(data)` then `finish`. Levels above 9 are left out: the
/// miniz_oxide backend asserts a level of at most 10.
#[verifier::external_body]
fn deflate_raw_encode(data: &[u8], level: u32) -> (r: Result<Vec<u8>, String>)
    requires
        level <= 9,
    ensures
        r is Ok ==> deflate_raw_of(data@, level) == produced(r->Ok_0@),
        r is Err ==> deflate_raw_of(data@, level) == failed(r->Err_0@),
{
    let mut e = flate2::write::DeflateEncoder::new(Vec::new(), flate2::Compression::new(level));
    if let Err(err) = e.write_all(data) {
        return Err(err.to_string());
    }
    match e.finish() {
        Ok(v) => Ok(v),
        Err(err) => Err(err.to_string()),
    }
}

/// The raw deflate decoding of `data`, or the decoder's error.
pub uninterp spec fn inflate_raw_of(data: Seq<u8>) -> Result<Seq<u8>, Seq<char>>;

/// `flate2::write::DeflateDecoder` over a `Vec`: `write_all(data)` then
/// `finish`. What the encoder produced at a level of at most 9 decodes to the
/// encoded bytes.
#[verifier::external_body]
fn inflate_raw_decode(data: &[u8]) -> (r: Result<Vec<u8>, String>)
    ensures
        r is Ok ==> inflate_raw_of(data@) == produced(r->Ok_0@),
        r is Err ==> inflate_raw_of(data@) == failed(r->Err_0@),
        forall|p: Seq<u8>, l: u32| l <= 9 && #[trigger] deflate_raw_of(p, l) == produced(data@) ==> r is Ok && r->Ok_0@ == p,
{
    let mut d = flate2::write::DeflateDecoder::new(Vec::new());
    if let Err(err) = d.write_all(data) {
        return Err(err.to_string());
    }
    match d.finish() {
        Ok(v) => Ok(v),
        Err(err) => Err(err.to_string()),
    }
}

/// The brotli encoding of `data` with the default parameters, or the
/// encoder's error.
pub uninterp spec fn brotli_compress_of(data: Seq<u8>) -> Result<Seq<u8>, Seq<char>>;

/// `brotli::BrotliCompress` with `BrotliEncoderParams::default()`, from a
/// cursor over `data` into a `Vec`.
#[verifier::external_body]
fn brotli_compress(data: &[u8]) -> (r: Result<Vec<u8>, String>)
    ensures
        r is Ok ==> brotli_compress_of(data@) == produced(r->Ok_0@),
        r is Err ==> brotli_compress_of(data@) == failed(r->Err_0@),
{
    let mut out = Vec::new();
    let params = brotli::enc::BrotliEncoderParams::default();
    match brotli::BrotliCompress(&mut std::io::Cursor::new(data), &mut out, &params) {
        Ok(_) => Ok(out),
        Err(err) => Err(err.to_string()),
    }
}

/// The brotli decoding of `data`, or the decoder's error.
pub uninterp spec fn brotli_decompress_of(data: Seq<u8>) -> Result<Seq<u8>, Seq<char>>;

/// `brotli::BrotliDecompress` from a cursor over `data` into a `Vec`. What
/// the encoder produced decodes to the encoded bytes.
#[verifier::external_body]
fn brotli_decompress(data: &[u8]) -> (r: Result<Vec<u8>, String>)
    ensures
        r is Ok ==> brotli_decompress_of(data@) == produced(r->Ok_0@),
        r is Err ==> brotli_decompress_of(data@) == failed(r->Err_0@),
        forall|p: Seq<u8>| #[trigger] brotli_compress_of(p) == produced(data@) ==> r is Ok && r->Ok_0@ == p,
{
    let mut out = Vec::new();
    match brotli::BrotliDecompress(&mut std::io::Cursor::new(data), &mut out) {
        Ok(()) => Ok(out),
        Err(err) => Err(err.to_string()),
    }
}

/// `flate2::Compression::default()`: level 6.
pub const DEFAULT_LEVEL: u32 = 6;

/// The compression level used for a requested one: levels 0 to 9 as
/// asked, anything else (or none) the default.
pub open spec fn effective_level(level: Option<u32>) -> u32 {
    match level {
        Some(l) => if l <= 9 { l } else { DEFAULT_LEVEL },
        None => DEFAULT_LEVEL,
    }
}

/// The compression level used for a requested one.
pub fn compression_level(level: Option<u32>) -> (r: u32)
    ensures
        r == effective_level(level),
{
    match level {
        Some(l) => if l <= 9 { l } else { DEFAULT_LEVEL },
        None => DEFAULT_LEVEL,
    }
}

/// Whether `data` starts with the gzip magic bytes `1f 8b`.
pub open spec fn gzip_magic(data: Seq<u8>) -> bool {
    data.len() >= 2 && data[0] == 0x1f && data[1] == 0x8b
}

/// A codec of `node:zlib`.
#[derive(Debug, Clone, Copy, PartialEq, Eq, Structural)]
pub enum ZlibKind {
    Gzip,
    Gunzip,
    Deflate,
    Inflate,
    DeflateRaw,
    InflateRaw,
    Unzip,
    BrotliCompress,
    BrotliDecompress,
}

/// The codec named `kind`, if any.
pub open spec fn kind_named(kind: Seq<char>) -> Option<ZlibKind> {
    if kind == "gzip"@ {
        Some(ZlibKind::Gzip)
    } else if kind == "gunzip"@ {
        Some(ZlibKind::Gunzip)
    } else if kind == "deflate"@ {
        Some(ZlibKind::Deflate)
    } else if kind == "inflate"@ {
        Some(ZlibKind::Inflate)
    } else if kind == "deflateRaw"@ {
        Some(ZlibKind::DeflateRaw)
    } else if kind == "inflateRaw"@ {
        Some(ZlibKind::InflateRaw)
    } else if kind == "unzip"@ {
        Some(ZlibKind::Unzip)
    } else if kind == "brotliCompress"@ {
        Some(ZlibKind::BrotliCompress)
    } else if kind == "brotliDecompress"@ {
        Some(ZlibKind::BrotliDecompress)
    } else {
        None
    }
}

/// The codec named `kind`: `gzip`, `gunzip`, `deflate`, `inflate`,
/// `deflateRaw`, `inflateRaw`, `unzip`, `brotliCompress` or
/// `brotliDecompress`.
pub fn parse_kind(kind: &str) -> (r: Option<ZlibKind>)
    ensures
        r == kind_named(kind@),
{
    if str_eq(kind, "gzip") {
        Some(ZlibKind::Gzip)
    } else if str_eq(kind, "gunzip") {
        Some(ZlibKind::Gunzip)
    } else if str_eq(kind, "deflate") {
        Some(ZlibKind::Deflate)
    } else if str_eq(kind, "inflate") {
        Some(ZlibKind::Inflate)
    } else if str_eq(kind, "deflateRaw") {
        Some(ZlibKind::DeflateRaw)
    } else if str_eq(kind, "inflateRaw") {
        Some(ZlibKind::InflateRaw)
    } else if str_eq(kind, "unzip") {
        Some(ZlibKind::Unzip)
    } else if str_eq(kind, "brotliCompress") {
        Some(ZlibKind::BrotliCompress)
    } else if str_eq(kind, "brotliDecompress") {
        Some(ZlibKind::BrotliDecompress)
    } else {
        None
    }
}

/// The codec `k` applied to `data` at compression level `l`.
pub open spec fn codec_of(k: ZlibKind, data: Seq<u8>, l: u32) -> Result<Seq<u8>, Seq<char>> {
    match k {
        ZlibKind::Gzip => gzip_of(data, l),
        ZlibKind::Gunzip => gunzip_of(data),
        ZlibKind::Deflate => deflate_of(data, l),
        ZlibKind::Inflate => inflate_of(data),
        ZlibKind::DeflateRaw => deflate_raw_of(data, l),
        ZlibKind::InflateRaw => inflate_raw_of(data),
        ZlibKind::Unzip => if gzip_magic(data) {
            gunzip_of(data)
        } else {
            inflate_of(data)
        },
        ZlibKind::BrotliCompress => brotli_compress_of(data),
        ZlibKind::BrotliDecompress => brotli_decompress_of(data),
    }
}

/// The one-shot codec named `kind` applied to `data`.
pub open spec fn one_shot_of(kind: Seq<char>, data: Seq<u8>, level: Option<u32>) -> Result<Seq<u8>, Seq<char>> {
    match kind_named(kind) {
        Some(k) => codec_of(k, data, effective_level(level)),
        None => Err("unknown zlib kind: "@ + kind),
    }
}

/// Whether `r` is the outcome `o`.
pub open spec fn outcome_is(r: Result<Vec<u8>, String>, o: Result<Seq<u8>, Seq<char>>) -> bool {
    match o {
        Ok(v) => r is Ok && r->Ok_0@ == v,
        Err(e) => r is Err && r->Err_0@ == e,
    }
}

/// Whether decoding with `k` gives back every input that the matching
/// encoder turned into `data`.
pub open spec fn decodes_back(k: ZlibKind, data: Seq<u8>, r: Result<Vec<u8>, String>) -> bool {
    match k {
        ZlibKind::Gunzip => forall|p: Seq<u8>, l: u32|
            l <= 9 && #[trigger] gzip_of(p, l) == produced(data) ==> r is Ok && r->Ok_0@ == p,
        ZlibKind::Inflate => forall|p: Seq<u8>, l: u32|
            l <= 9 && #[trigger] deflate_of(p, l) == produced(data) ==> r is Ok && r->Ok_0@ == p,
        ZlibKind::InflateRaw => forall|p: Seq<u8>, l: u32|
            l <= 9 && #[trigger] deflate_raw_of(p, l) == produced(data) ==> r is Ok && r->Ok_0@ == p,
        ZlibKind::Unzip => if gzip_magic(data) {
            forall|p: Seq<u8>, l: u32| l <= 9 && #[trigger] gzip_of(p, l) == produced(data) ==> r is Ok && r->Ok_0@ == p
        } else {
            forall|p: Seq<u8>, l: u32| l <= 9 && #[trigger] deflate_of(p, l) == produced(data) ==> r is Ok && r->Ok_0@ == p
        },
        ZlibKind::BrotliDecompress => forall|p: Seq<u8>|
            #[trigger] brotli_compress_of(p) == produced(data) ==> r is Ok && r->Ok_0@ == p,
        _ => true,
    }
}

/// The codec `k` applied to `data` at level `l`.
fn run_codec(k: ZlibKind, data: &[u8], l: u32) -> (r: Result<Vec<u8>, String>)
    requires
        l <= 9,
    ensures
        outcome_is(r, codec_of(k, data@, l)),
        decodes_back(k, data@, r),
{
    match k {
        ZlibKind::Gzip => gzip_encode(data, l),
        ZlibKind::Gunzip => gzip_decode(data),
        ZlibKind::Deflate => deflate_encode(data, l),
        ZlibKind::Inflate => inflate_decode(data),
        ZlibKind::DeflateRaw => deflate_raw_encode(data, l),
        ZlibKind::InflateRaw => inflate_raw_decode(data),
        ZlibKind::Unzip => {
            if data.len() >= 2 && data[0] == 0x1f && data[1] == 0x8b {
                gzip_decode(data)
            } else {
                inflate_decode(data)
            }
        },
        ZlibKind::BrotliCompress => brotli_compress(data),
        ZlibKind::BrotliDecompress => brotli_decompress(data),
    }
}

/// One-shot compression or decompression with the codec named `kind`
/// (`unzip` reads gzip when the data starts with the gzip magic bytes,
/// zlib otherwise); an unknown name is refused.
///
/// Each decompression gives back what the matching compression was given.
pub fn one_shot(kind: &str, data: &[u8], level: Option<u32>) -> (r: Result<Vec<u8>, String>)
    ensures
        outcome_is(r, one_shot_of(kind@, data@, level)),
        kind_named(kind@) matches Some(k) ==> decodes_back(k, data@, r),
{
    match parse_kind(kind) {
        Some(k) => run_codec(k, data, compression_level(level)),
        None => {
            let mut m = String::from_str("unknown zlib kind: ");
            m.append(kind);
            Err(m)
        },
    }
}

/// An error thrown to scripts by the zlib hooks: a code and a message.
#[derive(Debug)]
pub struct ZlibError {
    pub code: String,
    pub message: String,
}

/// `zlibSync`: the one-shot codec; a failure is `Z_DATA_ERROR` with the
/// message `zlib <kind>: <reason>`.
pub fn zlib_sync(kind: &str, data: &[u8], level: Option<u32>) -> (r: Result<Vec<u8>, ZlibError>)
    ensures
        match one_shot_of(kind@, data@, level) {
            Ok(v) => r is Ok && r->Ok_0@ == v,
            Err(e) => r is Err && r->Err_0.code@ == "Z_DATA_ERROR"@
                && r->Err_0.message@ == "zlib "@ + kind@ + ": "@ + e,
        },
{
    match one_shot(kind, data, level) {
        Ok(v) => Ok(v),
        Err(e) => {
            let mut m = String::from_str("zlib ");
            m.append(kind);
            m.append(": ");
            m.append(e.as_str());
            Err(ZlibError { code: String::from_str("Z_DATA_ERROR"), message: m })
        },
    }
}

/// `zlibCreate`'s check of the codec name: an unknown name is
/// `ERR_ZLIB_INITIALIZATION_FAILED`.
pub fn stream_kind(kind: &str) -> (r: Result<ZlibKind, ZlibError>)
    ensures
        match kind_named(kind@) {
            Some(k) => r == Ok::<ZlibKind, ZlibError>(k),
            None => r is Err && r->Err_0.code@ == "ERR_ZLIB_INITIALIZATION_FAILED"@
                && r->Err_0.message@ == "unknown zlib kind: "@ + kind@,
        },
{
    match parse_kind(kind) {
        Some(k) => Ok(k),
        None => {
            let mut m = String::from_str("unknown zlib kind: ");
            m.append(kind);
            Err(ZlibError { code: String::from_str("ERR_ZLIB_INITIALIZATION_FAILED"), message: m })
        },
    }
}

/// The id after `id`: ids wrap around and skip 0.
pub open spec fn next_handle(id: u32) -> u32 {
    if id == u32::MAX {
        1
    } else {
        (id + 1) as u32
    }
}

/// Live incremental codecs by handle. Handles are handed out from 1
/// upwards, wrap around and never are 0.
pub struct ZStreamTable<S> {
    streams: HashMap<u32, S>,
    next: u32,
}

impl<S> ZStreamTable<S> {
    /// The live codecs by handle.
    pub closed spec fn live(&self) -> Map<u32, S> {
        self.streams@
    }

    /// The handle the next codec gets.
    pub closed spec fn next_id(&self) -> u32 {
        self.next
    }

    /// The next handle is never 0.
    pub closed spec fn wf(&self) -> bool {
        self.next >= 1
    }

    /// An empty table; the first handle is 1.
    pub fn new() -> (r: Self)
        ensures
            r.wf(),
            r.live() == Map::<u32, S>::empty(),
            r.next_id() == 1,
    {
        ZStreamTable { streams: HashMap::new(), next: 1 }
    }

    /// Registers `stream` under the next handle and answers the handle.
    pub fn create(&mut self, stream: S) -> (id: u32)
        requires
            old(self).wf(),
        ensures
            final(self).wf(),
            id == old(self).next_id(),
            id >= 1,
            final(self).live() == old(self).live().insert(id, stream),
            final(self).next_id() == next_handle(id),
    {
        let id = self.next;
        self.next = if id == u32::MAX { 1 } else { id + 1 };
        self.streams.insert(id, stream);
        id
    }

    /// Takes the codec `id` out of the table, if live.
    pub fn take(&mut self, id: u32) -> (r: Option<S>)
        requires
            old(self).wf(),
        ensures
            final(self).wf(),
            final(self).next_id() == old(self).next_id(),
            final(self).live() == old(self).live().remove(id),
            old(self).live().contains_key(id) ==> r == Some(old(self).live()[id]),
            !old(self).live().contains_key(id) ==> r is None,
    {
        self.streams.remove(&id)
    }

    /// Puts the codec `stream` back under `id`.
    pub fn put(&mut self, id: u32, stream: S)
        requires
            old(self).wf(),
        ensures
            final(self).wf(),
            final(self).next_id() == old(self).next_id(),
            final(self).live() == old(self).live().insert(id, stream),
    {
        self.streams.insert(id, stream);
    }

    /// Frees the codec `id`, if live.
    pub fn free(&mut self, id: u32)
        requires
            old(self).wf(),
        ensures
            final(self).wf(),
            final(self).next_id() == old(self).next_id(),
            final(self).live() == old(self).live().remove(id),
    {
        self.streams.remove(&id);
    }

    /// Frees every codec; the handle counter goes on.
    pub fn clear(&mut self)
        requires
            old(self).wf(),
        ensures
            final(self).wf(),
            final(self).next_id() == old(self).next_id(),
            final(self).live() == Map::<u32, S>::empty(),
    {
        self.streams.clear();
    }

    /// Whether the codec `id` is live.
    pub fn contains(&self, id: u32) -> (r: bool)
        ensures
            r == self.live().contains_key(id),
    {
        self.streams.contains_key(&id)
    }
}

} // verus!
