//! Errors of sliver packing and unpacking.

use vstd::prelude::*;

verus! {

/// Why packing, unpacking or restoring a sliver failed.
#[derive(Debug)]
pub enum SliverError {
    /// The archive has no metadata member.
    MissingMetadata { filename: String },
    /// The archive has no heap member.
    MissingHeap { filename: String },
    /// The metadata names a format version this library cannot read.
    InvalidFormat { version: String },
    /// A VFS member's path is not a valid VFS path.
    InvalidVfsPath { path: String },
    /// The archive's content breaks a rule of the format.
    CorruptedArchive { reason: String },
    /// A file could not be written back into a VFS.
    VfsRestore { path: String, reason: String },
    /// The tar layer failed.
    Io(String),
    /// The metadata is not the expected JSON document.
    Json(String),
}

/// The result of a sliver operation.
pub type SliverResult<T> = Result<T, SliverError>;

} // verus!
