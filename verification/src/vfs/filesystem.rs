//! User-facing filesystem: strict validation, normalization and an optional
//! namespace prefix in front of a backend.

use vstd::prelude::*;
use vstd::string::StringExecFns;
use crate::vfs::isolate::{join_namespace, ns_sep};
use crate::vfs::memory::MemoryBackend;
use crate::vfs::security::PathValidator;
use crate::vfs::types::{normalize_path, path_accepted, seq_accepted, VfsError, VfsFile, VfsPath, VfsResult};

verus! {

/// The storage key of the normalized path `p` under the optional namespace:
/// `ns::p` normalized when that is accepted, else `p` itself.
pub open spec fn fs_prefixed(ns: Option<Seq<char>>, p: Seq<char>) -> Seq<char> {
    match ns {
        Some(n) => if seq_accepted(n + ns_sep() + p) {
            normalize_path(n + ns_sep() + p).unwrap()
        } else {
            p
        },
        None => p,
    }
}

/// The filesystem API over a backend.
pub struct FileSystem {
    backend: MemoryBackend,
    namespace: Option<String>,
    validator: PathValidator,
}

impl FileSystem {
    /// The backend.
    pub closed spec fn store(&self) -> MemoryBackend {
        self.backend
    }

    /// The namespace, if any.
    pub closed spec fn ns(&self) -> Option<Seq<char>> {
        match self.namespace {
            Some(n) => Some(n@),
            None => None,
        }
    }

    /// The validator.
    pub closed spec fn spec_validator(&self) -> PathValidator {
        self.validator
    }

    /// The storage key of `path`: `None` when the validator or the
    /// normalizer refuses it.
    pub open spec fn resolve(&self, path: &str) -> Option<Seq<char>> {
        if self.spec_validator().accepts(path) && path_accepted(path) {
            Some(fs_prefixed(self.ns(), normalize_path(path@).unwrap()))
        } else {
            None
        }
    }

    /// A filesystem over `backend`, without namespace, with the default
    /// validator.
    pub fn new(backend: MemoryBackend) -> (r: FileSystem)
        ensures
            r.store() == backend,
            r.ns() is None,
            r.spec_validator().max_path_length == crate::vfs::types::MAX_PATH_LENGTH,
    {
        FileSystem { backend, namespace: None, validator: PathValidator::default() }
    }

    /// A filesystem over `backend` whose paths are stored under `namespace`.
    pub fn with_namespace(backend: MemoryBackend, namespace: String) -> (r: FileSystem)
        ensures
            r.store() == backend,
            r.ns() == Some(namespace@),
            r.spec_validator().max_path_length == crate::vfs::types::MAX_PATH_LENGTH,
    {
        FileSystem { backend, namespace: Some(namespace), validator: PathValidator::default() }
    }

    /// The same filesystem with another validator.
    pub fn with_validator(self, validator: PathValidator) -> (r: FileSystem)
        ensures
            r.store() == self.store(),
            r.ns() == self.ns(),
            r.spec_validator() == validator,
    {
        FileSystem { backend: self.backend, namespace: self.namespace, validator }
    }

    /// The backend.
    pub fn backend(&self) -> (r: &MemoryBackend)
        ensures
            *r == self.store(),
    {
        &self.backend
    }

    /// The namespace, if any.
    pub fn namespace(&self) -> (r: Option<&str>)
        ensures
            match r {
                Some(s) => self.ns() == Some(s@),
                None => self.ns() is None,
            },
    {
        match &self.namespace {
            Some(n) => Some(n.as_str()),
            None => None,
        }
    }

    /// Strict validation, then normalization.
    fn validate_and_normalize(&self, path: &str) -> (r: VfsResult<VfsPath>)
        ensures
            self.spec_validator().accepts(path) && path_accepted(path) ==> (r matches Ok(p) && Some(
                p@,
            ) == normalize_path(path@)),
            !(self.spec_validator().accepts(path) && path_accepted(path)) ==> (r matches Err(e)
                && e is InvalidPath),
    {
        self.validator.validate(path)?;
        VfsPath::new(path)
    }

    /// Prefixes a normalized path with the namespace, keeping the path as it
    /// is when the prefixed form is refused.
    fn prefix_namespace(&self, path: VfsPath) -> (r: VfsPath)
        ensures
            r@ == fs_prefixed(self.ns(), path@),
    {
        match &self.namespace {
            Some(ns) => {
                let prefixed = join_namespace(ns.as_str(), path.as_str());
                match VfsPath::new(prefixed.as_str()) {
                    Ok(p) => p,
                    Err(_) => path,
                }
            },
            None => path,
        }
    }

    /// The storage path of `path`, or `InvalidPath`.
    fn storage_path(&self, path: &str) -> (r: VfsResult<VfsPath>)
        ensures
            match self.resolve(path) {
                Some(k) => r matches Ok(p) && p@ == k,
                None => r matches Err(e) && e is InvalidPath,
            },
    {
        let p = self.validate_and_normalize(path)?;
        Ok(self.prefix_namespace(p))
    }

    /// The content of the file at `path`.
    pub fn read(&self, path: &str) -> (r: VfsResult<Vec<u8>>)
        ensures
            match self.resolve(path) {
                Some(k) => self.store().read_outcome(k, r),
                None => r matches Err(e) && e is InvalidPath,
            },
    {
        let storage_path = self.storage_path(path)?;
        self.backend.read(&storage_path)
    }

    /// Stores `content` at `path`.
    pub fn write(&mut self, path: &str, content: &[u8]) -> (r: VfsResult<()>)
        requires
            old(self).store().inv(),
            old(self).resolve(path) matches Some(k) ==> old(self).store().write_fits(k, content@.len()),
        ensures
            final(self).store().inv(),
            final(self).ns() == old(self).ns(),
            final(self).spec_validator() == old(self).spec_validator(),
            match old(self).resolve(path) {
                Some(k) => MemoryBackend::write_outcome(&old(self).store(), k, content@, r, &final(self).store()),
                None => (r matches Err(e) && e is InvalidPath) && final(self).store() == old(self).store(),
            },
    {
        let storage_path = self.storage_path(path)?;
        self.backend.write(&storage_path, content)
    }

    /// Whether a file is stored at `path`.
    pub fn exists_path(&self, path: &str) -> (r: VfsResult<bool>)
        ensures
            match self.resolve(path) {
                Some(k) => r == Ok::<bool, VfsError>(self.store().files().contains_key(k)),
                None => r matches Err(e) && e is InvalidPath,
            },
    {
        let storage_path = self.storage_path(path)?;
        Ok(self.backend.exists_path(&storage_path))
    }

    /// Removes the file at `path`.
    pub fn delete(&mut self, path: &str) -> (r: VfsResult<()>)
        requires
            old(self).store().inv(),
        ensures
            final(self).store().inv(),
            final(self).ns() == old(self).ns(),
            final(self).spec_validator() == old(self).spec_validator(),
            match old(self).resolve(path) {
                Some(k) => MemoryBackend::delete_outcome(&old(self).store(), k, r, &final(self).store()),
                None => (r matches Err(e) && e is InvalidPath) && final(self).store() == old(self).store(),
            },
    {
        let storage_path = self.storage_path(path)?;
        self.backend.delete(&storage_path)
    }

    /// A copy of the file at `path`.
    pub fn metadata(&self, path: &str) -> (r: VfsResult<VfsFile>)
        ensures
            match self.resolve(path) {
                Some(k) => self.store().metadata_outcome(k, r),
                None => r matches Err(e) && e is InvalidPath,
            },
    {
        let storage_path = self.storage_path(path)?;
        self.backend.metadata(&storage_path)
    }
}

} // verus!
