//! Names and version of the sliver archive format.

use vstd::prelude::*;

verus! {

/// Version of the archive layout written by this library.
pub const FORMAT_VERSION: &'static str = "1.0";

/// Version of the runtime recorded in the metadata of new slivers.
pub const NANO_VERSION: &'static str = "1.5.0";

/// Archive member holding the opaque heap snapshot blob.
pub const HEAP_FILENAME: &'static str = "heap.bin";

/// Archive member holding the JSON metadata.
pub const METADATA_FILENAME: &'static str = "meta.json";

/// Archive member holding the human-readable listing of the archive.
pub const MANIFEST_FILENAME: &'static str = "manifest.txt";

/// Prefix of every archive member that holds a VFS file.
pub const VFS_PREFIX: &'static str = "vfs/";

/// File extension of sliver archives.
pub const SLIVER_EXTENSION: &'static str = ".sliver";

/// Text describing the archive layout.
pub const STRUCTURE_DOCUMENTATION: &'static str = "Sliver Archive Structure (v1.0)
================================

app-v1.sliver (tar archive)
├── meta.json          # Metadata: hostname, created_at, version
├── heap.bin           # V8 heap snapshot (opaque blob)
├── vfs/               # Virtual filesystem contents
│   ├── data/
│   │   └── config.json
│   └── assets/
│       └── logo.png
└── manifest.txt       # Human-readable manifest

Required Files:
- meta.json: JSON metadata with hostname, timestamps, version info
- heap.bin: Opaque V8 heap snapshot blob

Optional Files:
- manifest.txt: Human-readable listing (generated)
- vfs/*: Virtual filesystem contents

Format Notes:
- Archive is a standard tar file (ustar or GNU format)
- heap.bin is an opaque blob - do not parse its contents
- VFS entries preserve directory structure under vfs/ prefix
- All paths use forward slashes (even on Windows)
- Binary files stored as-is without encoding

Future Extensions:
- Delta/differential snapshots (additive format)
- Compression layer (gzip/brotli)
- Checksum verification per entry
";

/// Whether a format version can be read by this library.
pub open spec fn version_supported(version: Seq<char>) -> bool {
    version == FORMAT_VERSION@
}

/// The archive members that every sliver must hold.
pub open spec fn required_members() -> Seq<Seq<char>> {
    seq![METADATA_FILENAME@, HEAP_FILENAME@]
}

/// The format's version, names and capabilities.
pub struct SliverFormat;

impl SliverFormat {
    /// The version written by this library.
    pub fn version() -> (r: &'static str)
        ensures
            r@ == FORMAT_VERSION@,
    {
        FORMAT_VERSION
    }

    /// The runtime version recorded in new metadata.
    pub fn nano_version() -> (r: &'static str)
        ensures
            r@ == NANO_VERSION@,
    {
        NANO_VERSION
    }

    /// Whether `version` can be read; only the current version can.
    pub fn is_supported_version(version: &str) -> (r: bool)
        ensures
            r == version_supported(version@),
    {
        crate::text::str_eq(version, FORMAT_VERSION)
    }

    /// The members every valid archive holds: metadata, then heap.
    pub fn required_files() -> (r: Vec<&'static str>)
        ensures
            r@.map_values(|s: &'static str| s@) == required_members(),
    {
        let mut v: Vec<&'static str> = Vec::new();
        v.push(METADATA_FILENAME);
        v.push(HEAP_FILENAME);
        assert(v@.map_values(|s: &'static str| s@) =~= required_members());
        v
    }

    /// A description of the archive layout.
    pub fn structure_documentation() -> (r: &'static str)
        ensures
            r@ == STRUCTURE_DOCUMENTATION@,
    {
        STRUCTURE_DOCUMENTATION
    }
}

} // verus!
