//! WebAssembly modules held as bytes, with a check of the binary header.

use vstd::prelude::*;
use vstd::string::StringExecFns;

verus! {

/// Why bytes are not a WebAssembly binary this runtime accepts.
#[derive(Debug)]
pub enum WasmError {
    /// Fewer than the 8 header bytes.
    TooShort { len: usize },
    /// The first four bytes are not `\0asm`.
    InvalidMagic,
    /// The binary format version (little-endian) is not 1.
    UnsupportedVersion { version: u32 },
}

/// The WebAssembly magic bytes `\0asm`.
pub open spec fn wasm_magic() -> Seq<u8> {
    seq![0u8, 0x61u8, 0x73u8, 0x6du8]
}

/// The binary format version 1, little-endian.
pub open spec fn wasm_version_one() -> Seq<u8> {
    seq![1u8, 0u8, 0u8, 0u8]
}

/// The little-endian value of four bytes.
pub open spec fn le_u32(b: Seq<u8>) -> int {
    b[0] + 256 * b[1] + 65536 * b[2] + 16777216 * b[3]
}

/// Whether bytes start with a WebAssembly header of version 1.
pub open spec fn header_ok(bytes: Seq<u8>) -> bool {
    bytes.len() >= 8 && bytes.subrange(0, 4) == wasm_magic() && bytes.subrange(4, 8)
        == wasm_version_one()
}

/// Checks WebAssembly binaries.
pub struct WasmLoader;

impl WasmLoader {
    /// Accepts bytes that start with the magic `\0asm` and version 1;
    /// the error says which part is wrong, in that order.
    pub fn validate(bytes: &[u8]) -> (r: Result<(), WasmError>)
        ensures
            r is Ok <==> header_ok(bytes@),
            r matches Err(WasmError::TooShort { len }) ==> bytes@.len() < 8 && len == bytes@.len(),
            r matches Err(WasmError::InvalidMagic) ==> bytes@.len() >= 8 && bytes@.subrange(0, 4)
                != wasm_magic(),
            r matches Err(WasmError::UnsupportedVersion { version }) ==> bytes@.len() >= 8
                && bytes@.subrange(0, 4) == wasm_magic() && version == le_u32(bytes@.subrange(4, 8)),
    {
        if bytes.len() < 8 {
            return Err(WasmError::TooShort { len: bytes.len() });
        }
        if !(bytes[0] == 0 && bytes[1] == 0x61 && bytes[2] == 0x73 && bytes[3] == 0x6d) {
            assert(bytes@.subrange(0, 4) != wasm_magic()) by {
                if bytes@.subrange(0, 4) == wasm_magic() {
                    assert(bytes@.subrange(0, 4)[0] == bytes@[0]);
                    assert(bytes@.subrange(0, 4)[1] == bytes@[1]);
                    assert(bytes@.subrange(0, 4)[2] == bytes@[2]);
                    assert(bytes@.subrange(0, 4)[3] == bytes@[3]);
                }
            }
            return Err(WasmError::InvalidMagic);
        }
        assert(bytes@.subrange(0, 4) =~= wasm_magic());
        if !(bytes[4] == 1 && bytes[5] == 0 && bytes[6] == 0 && bytes[7] == 0) {
            let version: u32 = (bytes[4] as u32) + 256 * (bytes[5] as u32) + 65536 * (bytes[6] as u32)
                + 16777216 * (bytes[7] as u32);
            assert(bytes@.subrange(4, 8) != wasm_version_one()) by {
                if bytes@.subrange(4, 8) == wasm_version_one() {
                    assert(bytes@.subrange(4, 8)[0] == bytes@[4]);
                    assert(bytes@.subrange(4, 8)[1] == bytes@[5]);
                    assert(bytes@.subrange(4, 8)[2] == bytes@[6]);
                    assert(bytes@.subrange(4, 8)[3] == bytes@[7]);
                }
            }
            return Err(WasmError::UnsupportedVersion { version });
        }
        assert(bytes@.subrange(4, 8) =~= wasm_version_one());
        Ok(())
    }
}

/// A WebAssembly module: its bytes and, where known, the path it came from.
#[derive(Debug)]
pub struct WasmModule {
    bytes: Vec<u8>,
    path: Option<String>,
}

impl WasmModule {
    /// The module's bytes.
    pub closed spec fn spec_bytes(&self) -> Seq<u8> {
        self.bytes@
    }

    /// The module's path, if known.
    pub closed spec fn spec_path(&self) -> Option<Seq<char>> {
        match self.path {
            Some(p) => Some(p@),
            None => None,
        }
    }

    /// A module of `bytes`, which must pass [`WasmLoader::validate`].
    pub fn from_bytes(bytes: Vec<u8>) -> (r: Result<WasmModule, WasmError>)
        ensures
            r is Ok <==> header_ok(bytes@),
            r matches Ok(m) ==> m.spec_bytes() == bytes@ && m.spec_path() is None,
    {
        WasmLoader::validate(bytes.as_slice())?;
        Ok(WasmModule { bytes, path: None })
    }

    /// A module of `bytes` loaded from `path`, which must pass
    /// [`WasmLoader::validate`].
    pub fn from_bytes_with_path(bytes: Vec<u8>, path: &str) -> (r: Result<WasmModule, WasmError>)
        ensures
            r is Ok <==> header_ok(bytes@),
            r matches Ok(m) ==> m.spec_bytes() == bytes@ && m.spec_path() == Some(path@),
    {
        WasmLoader::validate(bytes.as_slice())?;
        Ok(WasmModule { bytes, path: Some(path.to_owned()) })
    }

    /// The module's bytes.
    pub fn bytes(&self) -> (r: &[u8])
        ensures
            r@ == self.spec_bytes(),
    {
        self.bytes.as_slice()
    }

    /// The module's path, if known.
    pub fn path(&self) -> (r: Option<&str>)
        ensures
            match r {
                Some(p) => self.spec_path() == Some(p@),
                None => self.spec_path() is None,
            },
    {
        match &self.path {
            Some(p) => Some(p.as_str()),
            None => None,
        }
    }

    /// The module's size in bytes.
    pub fn size(&self) -> (r: usize)
        ensures
            r == self.spec_bytes().len(),
    {
        self.bytes.len()
    }
}

} // verus!
