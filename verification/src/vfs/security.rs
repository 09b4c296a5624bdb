//! Security layer of the VFS: strict path validation before normalization,
//! and a quota tracker for backends.

use vstd::prelude::*;
use vstd::string::StringExecFns;
use crate::text::{str_chars, decimal, decimal_string};
use crate::vfs::types::{MAX_PATH_LENGTH, ResourceLimits, VfsError, VfsResult};

verus! {

/// Whether a `..` component starts at index `i` of `s`: two dots bounded on
/// each side by a `/` or an end of the path.
pub open spec fn dot_dot_at(s: Seq<char>, i: int) -> bool {
    &&& 0 <= i
    &&& i + 2 <= s.len()
    &&& s[i] == '.'
    &&& s[i + 1] == '.'
    &&& (i == 0 || s[i - 1] == '/')
    &&& (i + 2 == s.len() || s[i + 2] == '/')
}

/// Whether some `/`-separated component of `s` is exactly `..`.
pub open spec fn has_dot_dot_component(s: Seq<char>) -> bool {
    exists|i: int| dot_dot_at(s, i)
}

/// Strict validator run before normalization: it refuses over-long paths,
/// NUL characters and `..` components.
pub struct PathValidator {
    pub max_path_length: usize,
}

/// The explanation attached to an over-long path.
pub open spec fn length_reason_text(max: usize) -> Seq<char> {
    "Path exceeds max length: "@ + decimal(max as nat)
}

fn length_reason(max: usize) -> (r: String)
    ensures
        r@ == length_reason_text(max),
{
    let mut m = String::from_str("Path exceeds max length: ");
    let digits = decimal_string(max);
    m.append(digits.as_str());
    m
}

/// The explanation attached to a path that `validate` refuses: its length
/// first, then NUL characters, then `..` components.
pub open spec fn refusal_reason(max: usize, path: &str) -> Seq<char> {
    if path.len() > max {
        length_reason_text(max)
    } else if path@.contains('\0') {
        "Path contains null bytes"@
    } else {
        "Path contains '..' which is not allowed"@
    }
}

impl PathValidator {
    /// A validator with the given length limit, in bytes.
    pub fn new(max_path_length: usize) -> (r: PathValidator)
        ensures
            r.max_path_length == max_path_length,
    {
        PathValidator { max_path_length }
    }

    /// Whether [`PathValidator::validate`] accepts `path`.
    pub open spec fn accepts(&self, path: &str) -> bool {
        &&& path.len() <= self.max_path_length
        &&& !path@.contains('\0')
        &&& !has_dot_dot_component(path@)
    }

    /// Accepts `path` exactly when [`PathValidator::accepts`] holds; otherwise
    /// answers `InvalidPath` naming `path`.
    pub fn validate(&self, path: &str) -> (r: VfsResult<()>)
        ensures
            r is Ok <==> self.accepts(path),
            r is Err ==> r->Err_0 is InvalidPath && r->Err_0->InvalidPath_path@ == path@
                && r->Err_0->InvalidPath_reason@ == refusal_reason(self.max_path_length, path),
    {
        if path.len() > self.max_path_length {
            return Err(VfsError::InvalidPath {
                path: path.to_owned(),
                reason: length_reason(self.max_path_length),
            });
        }
        let chars = str_chars(path);
        let n = chars.len();
        let mut i: usize = 0;
        while i < n
            invariant
                n == chars@.len(),
                chars@ == path@,
                i <= n,
                path.len() <= self.max_path_length,
                forall|j: int| 0 <= j < i ==> chars@[j] != '\0',
            decreases n - i,
        {
            if chars[i] == '\0' {
                assert(path@[i as int] == '\0');
                return Err(VfsError::InvalidPath {
                    path: path.to_owned(),
                    reason: String::from_str("Path contains null bytes"),
                });
            }
            i = i + 1;
        }
        let mut k: usize = 0;
        while k < n
            invariant
                n == chars@.len(),
                chars@ == path@,
                k <= n,
                path.len() <= self.max_path_length,
                !path@.contains('\0'),
                forall|j: int| 0 <= j < k ==> !dot_dot_at(chars@, j),
            decreases n - k,
        {
            if n - k >= 2 && chars[k] == '.' && chars[k + 1] == '.' && (k == 0 || chars[k - 1]
                == '/') && (k + 2 == n || chars[k + 2] == '/') {
                assert(dot_dot_at(chars@, k as int));
                return Err(VfsError::InvalidPath {
                    path: path.to_owned(),
                    reason: String::from_str("Path contains '..' which is not allowed"),
                });
            }
            k = k + 1;
        }
        assert(!has_dot_dot_component(path@)) by {
            assert forall|j: int| !dot_dot_at(path@, j) by {
                if 0 <= j < n {
                } else {
                }
            }
        }
        Ok(())
    }
}

impl Default for PathValidator {
    fn default() -> (r: PathValidator)
        ensures
            r.max_path_length == MAX_PATH_LENGTH,
    {
        PathValidator { max_path_length: MAX_PATH_LENGTH }
    }
}

impl Clone for PathValidator {
    fn clone(&self) -> (r: Self)
        ensures
            r == *self,
    {
        PathValidator { max_path_length: self.max_path_length }
    }
}

/// Quota tracker: the limits and the counters of bytes and files in use.
pub struct ResourceLimiter {
    pub limits: ResourceLimits,
    pub total_bytes: usize,
    pub file_count: usize,
}

/// The error answered when a quota named `resource` is exceeded.
pub open spec fn quota_error(e: VfsError, resource: Seq<char>, limit: usize, current: usize) -> bool {
    e matches VfsError::QuotaExceeded { resource: r, limit: l, current: c } && r@ == resource && l
        == limit && c == current
}

impl ResourceLimiter {
    /// A tracker with the given limits and nothing in use.
    pub fn new(limits: ResourceLimits) -> (r: ResourceLimiter)
        ensures
            r.limits == limits,
            r.total_bytes == 0,
            r.file_count == 0,
    {
        ResourceLimiter { limits, total_bytes: 0, file_count: 0 }
    }

    /// Whether a write of `file_size` bytes is allowed: the file-size limit
    /// first, then, for a new file, the file-count limit.
    pub fn check_write(&self, file_size: usize, is_new_file: bool) -> (r: VfsResult<()>)
        ensures
            file_size > self.limits.max_file_size ==> (r matches Err(e) && quota_error(
                e,
                "file_size"@,
                self.limits.max_file_size,
                file_size,
            )),
            file_size <= self.limits.max_file_size && is_new_file && self.file_count
                >= self.limits.max_files ==> (r matches Err(e) && quota_error(
                e,
                "file_count"@,
                self.limits.max_files,
                self.file_count,
            )),
            file_size <= self.limits.max_file_size && !(is_new_file && self.file_count
                >= self.limits.max_files) ==> r is Ok,
    {
        if file_size > self.limits.max_file_size {
            return Err(VfsError::QuotaExceeded {
                resource: String::from_str("file_size"),
                limit: self.limits.max_file_size,
                current: file_size,
            });
        }
        if is_new_file {
            if self.file_count >= self.limits.max_files {
                return Err(VfsError::QuotaExceeded {
                    resource: String::from_str("file_count"),
                    limit: self.limits.max_files,
                    current: self.file_count,
                });
            }
        }
        Ok(())
    }

    /// Whether storage would stay within its limit after changing
    /// `current_total` by `size_delta`; the new total is computed as the
    /// signed sum reinterpreted as an unsigned size.
    pub fn check_total_storage(&self, size_delta: i64, current_total: usize) -> (r: VfsResult<()>)
        requires
            i64::MIN <= (current_total as i64) + size_delta <= i64::MAX,
        ensures
            (current_total as i64 + size_delta) as usize > self.limits.max_total_storage
                ==> (r matches Err(e) && quota_error(
                e,
                "total_storage"@,
                self.limits.max_total_storage,
                current_total,
            )),
            (current_total as i64 + size_delta) as usize <= self.limits.max_total_storage
                ==> r is Ok,
    {
        let new_total = (current_total as i64 + size_delta) as usize;
        if new_total > self.limits.max_total_storage {
            return Err(VfsError::QuotaExceeded {
                resource: String::from_str("total_storage"),
                limit: self.limits.max_total_storage,
                current: current_total,
            });
        }
        Ok(())
    }

    /// Counts a created file of `size` bytes (counters wrap like atomics).
    pub fn record_create(&mut self, size: usize)
        ensures
            final(self).limits == old(self).limits,
            final(self).file_count == vstd::wrapping::usize_specs::wrapping_add(
                old(self).file_count,
                1,
            ),
            final(self).total_bytes == vstd::wrapping::usize_specs::wrapping_add(
                old(self).total_bytes,
                size,
            ),
    {
        self.file_count = self.file_count.wrapping_add(1);
        self.total_bytes = self.total_bytes.wrapping_add(size);
    }

    /// Counts a deleted file of `size` bytes (counters wrap like atomics).
    pub fn record_delete(&mut self, size: usize)
        ensures
            final(self).limits == old(self).limits,
            final(self).file_count == vstd::wrapping::usize_specs::wrapping_sub(
                old(self).file_count,
                1,
            ),
            final(self).total_bytes == vstd::wrapping::usize_specs::wrapping_sub(
                old(self).total_bytes,
                size,
            ),
    {
        self.file_count = self.file_count.wrapping_sub(1);
        self.total_bytes = self.total_bytes.wrapping_sub(size);
    }

    /// Moves the byte counter by `new_size - old_size`, computed in signed
    /// 64-bit arithmetic (counters wrap like atomics).
    pub fn record_update(&mut self, old_size: usize, new_size: usize)
        requires
            i64::MIN < (new_size as i64) - (old_size as i64) <= i64::MAX,
        ensures
            final(self).limits == old(self).limits,
            final(self).file_count == old(self).file_count,
            ({
                let delta = (new_size as i64) - (old_size as i64);
                &&& delta > 0 ==> final(self).total_bytes
                    == vstd::wrapping::usize_specs::wrapping_add(old(self).total_bytes, delta as usize)
                &&& delta < 0 ==> final(self).total_bytes
                    == vstd::wrapping::usize_specs::wrapping_sub(old(self).total_bytes, (-delta) as usize)
                &&& delta == 0 ==> final(self).total_bytes == old(self).total_bytes
            }),
    {
        let delta = new_size as i64 - old_size as i64;
        if delta > 0 {
            self.total_bytes = self.total_bytes.wrapping_add(delta as usize);
        } else if delta < 0 {
            self.total_bytes = self.total_bytes.wrapping_sub((-delta) as usize);
        }
    }

    /// The (file count, total bytes) in use.
    pub fn current_usage(&self) -> (r: (usize, usize))
        ensures
            r == (self.file_count, self.total_bytes),
    {
        (self.file_count, self.total_bytes)
    }

    /// The limits.
    pub fn limits(&self) -> (r: &ResourceLimits)
        ensures
            *r == self.limits,
    {
        &self.limits
    }
}

} // verus!
