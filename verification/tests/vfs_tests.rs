use nano_runtime::vfs::filesystem::FileSystem;
use nano_runtime::vfs::isolate::{IsolateVfs, VfsNamespace};
use nano_runtime::vfs::memory::MemoryBackend;
use nano_runtime::vfs::security::{PathValidator, ResourceLimiter};
use nano_runtime::vfs::types::{ResourceLimits, VfsError, VfsFile, VfsPath};

#[test]
fn test_memory_backend_basic() {
    let mut backend = MemoryBackend::default();
    let path = VfsPath::new("test.txt").unwrap();
    backend.write(&path, b"hello world").unwrap();
    let content = backend.read(&path).unwrap();
    assert_eq!(content, b"hello world");
    assert!(backend.exists_path(&path));
    backend.delete(&path).unwrap();
    assert!(!backend.exists_path(&path));
}

#[test]
fn test_memory_backend_empty_file() {
    let mut backend = MemoryBackend::default();
    let path = VfsPath::new("empty.txt").unwrap();
    backend.write(&path, b"").unwrap();
    let content = backend.read(&path).unwrap();
    assert!(content.is_empty());
    let meta = backend.metadata(&path).unwrap();
    assert_eq!(meta.size, 0);
}

#[test]
fn test_memory_backend_not_found() {
    let backend = MemoryBackend::default();
    let path = VfsPath::new("nonexistent.txt").unwrap();
    let result = backend.read(&path);
    assert!(matches!(result, Err(VfsError::NotFound { .. })));
    assert_eq!(result.unwrap_err().code(), "ENOENT");
}

#[test]
fn test_memory_backend_update() {
    let mut backend = MemoryBackend::default();
    let path = VfsPath::new("update.txt").unwrap();
    backend.write(&path, b"first").unwrap();
    let meta1 = backend.metadata(&path).unwrap();
    let start = std::time::Instant::now();
    while start.elapsed() < std::time::Duration::from_millis(10) {}
    backend.write(&path, b"second version").unwrap();
    let meta2 = backend.metadata(&path).unwrap();
    assert_eq!(meta1.created_at, meta2.created_at);
    assert!(meta2.modified_at > meta1.modified_at);
    assert_eq!(meta2.content, b"second version");
}

#[test]
fn test_memory_backend_quota_file_size() {
    let limits = ResourceLimits { max_file_size: 100, ..Default::default() };
    let mut backend = MemoryBackend::with_limits(limits);
    let path = VfsPath::new("large.txt").unwrap();
    backend.write(&path, &[0u8; 50]).unwrap();
    let result = backend.write(&path, &[0u8; 101]);
    assert!(matches!(result, Err(VfsError::QuotaExceeded { ref resource, .. }) if resource == "file_size"));
    assert_eq!(result.unwrap_err().code(), "EQUOTA");
}

#[test]
fn test_memory_backend_quota_file_count() {
    let limits = ResourceLimits { max_files: 3, ..Default::default() };
    let mut backend = MemoryBackend::with_limits(limits);
    for i in 0..3 {
        let path = VfsPath::new(&format!("file{}.txt", i)).unwrap();
        backend.write(&path, b"content").unwrap();
    }
    let path = VfsPath::new("file3.txt").unwrap();
    let result = backend.write(&path, b"content");
    assert!(matches!(result, Err(VfsError::QuotaExceeded { ref resource, .. }) if resource == "file_count"));
}

#[test]
fn test_memory_backend_quota_total_storage() {
    let limits = ResourceLimits { max_total_storage: 200, max_file_size: 100, max_files: 10 };
    let mut backend = MemoryBackend::with_limits(limits);
    let path1 = VfsPath::new("file1.txt").unwrap();
    backend.write(&path1, &[0u8; 100]).unwrap();
    let path2 = VfsPath::new("file2.txt").unwrap();
    backend.write(&path2, &[0u8; 100]).unwrap();
    let path3 = VfsPath::new("file3.txt").unwrap();
    let result = backend.write(&path3, &[0u8; 10]);
    assert!(matches!(result, Err(VfsError::QuotaExceeded { ref resource, .. }) if resource == "total_storage"));
}

#[test]
fn test_memory_backend_counters() {
    let mut backend = MemoryBackend::default();
    let path1 = VfsPath::new("file1.txt").unwrap();
    let path2 = VfsPath::new("file2.txt").unwrap();
    assert_eq!(backend.len(), 0);
    assert!(backend.is_empty());
    assert_eq!(backend.current_usage(), (0, 0));
    backend.write(&path1, &[0u8; 100]).unwrap();
    assert_eq!(backend.len(), 1);
    assert_eq!(backend.current_usage(), (1, 100));
    backend.write(&path2, &[0u8; 50]).unwrap();
    assert_eq!(backend.len(), 2);
    assert_eq!(backend.current_usage(), (2, 150));
    backend.write(&path1, &[0u8; 80]).unwrap();
    assert_eq!(backend.current_usage(), (2, 130));
    backend.delete(&path2).unwrap();
    assert_eq!(backend.len(), 1);
    assert_eq!(backend.current_usage(), (1, 80));
    backend.clear();
    assert_eq!(backend.len(), 0);
    assert!(backend.is_empty());
    assert_eq!(backend.current_usage(), (0, 0));
}

#[test]
fn test_snapshot_entries() {
    let mut backend = MemoryBackend::default();
    backend.write(&VfsPath::new("file1.txt").unwrap(), b"content1").unwrap();
    backend.write(&VfsPath::new("dir/file2.txt").unwrap(), b"content2").unwrap();
    backend.write(&VfsPath::new("empty.txt").unwrap(), b"").unwrap();
    let entries = backend.snapshot_entries();
    assert_eq!(entries.len(), 3);
    let paths: Vec<_> = entries.iter().map(|(p, _)| p.as_str().to_string()).collect();
    assert!(paths.contains(&"file1.txt".to_string()));
    assert!(paths.contains(&"dir/file2.txt".to_string()));
    assert!(paths.contains(&"empty.txt".to_string()));
    let file1 = entries.iter().find(|(p, _)| p.as_str() == "file1.txt").unwrap();
    assert_eq!(file1.1.content, b"content1");
}

#[test]
fn test_restore_from_snapshot() {
    let mut backend = MemoryBackend::default();
    backend.write(&VfsPath::new("old.txt").unwrap(), b"old content").unwrap();
    assert_eq!(backend.len(), 1);
    let entries = vec![
        (VfsPath::new("new1.txt").unwrap(), VfsFile::new(b"new content 1".to_vec())),
        (VfsPath::new("new2.txt").unwrap(), VfsFile::new(b"new content 2".to_vec())),
    ];
    backend.restore_from_snapshot(&entries);
    assert!(!backend.exists_path(&VfsPath::new("old.txt").unwrap()));
    assert_eq!(backend.len(), 2);
    assert!(backend.exists_path(&VfsPath::new("new1.txt").unwrap()));
    assert!(backend.exists_path(&VfsPath::new("new2.txt").unwrap()));
    let content1 = backend.read(&VfsPath::new("new1.txt").unwrap()).unwrap();
    assert_eq!(content1, b"new content 1");
    assert_eq!(backend.current_usage(), (2, 26));
}

#[test]
fn test_snapshot_roundtrip() {
    let mut backend = MemoryBackend::default();
    backend.write(&VfsPath::new("config.json").unwrap(), b"{\"key\": \"value\"}").unwrap();
    backend.write(&VfsPath::new("data/users.txt").unwrap(), b"user1\nuser2").unwrap();
    let entries = backend.snapshot_entries();
    let mut new_backend = MemoryBackend::default();
    new_backend.restore_from_snapshot(&entries);
    assert_eq!(new_backend.len(), 2);
    let config = new_backend.read(&VfsPath::new("config.json").unwrap()).unwrap();
    assert_eq!(config, b"{\"key\": \"value\"}");
    let users = new_backend.read(&VfsPath::new("data/users.txt").unwrap()).unwrap();
    assert_eq!(users, b"user1\nuser2");
}

#[test]
fn test_isolate_vfs_basic() {
    let mut vfs = IsolateVfs::new(VfsNamespace::from_hostname("test.example.com"), MemoryBackend::default());
    vfs.write("/config.json", b"{\"key\": \"value\"}").unwrap();
    let content = vfs.read("/config.json").unwrap();
    assert_eq!(content, b"{\"key\": \"value\"}");
    assert!(vfs.exists_path("/config.json").unwrap());
    assert!(!vfs.exists_path("/missing.txt").unwrap());
}

#[test]
fn test_isolate_vfs_path_traversal_blocked() {
    let mut vfs = IsolateVfs::new(VfsNamespace::from_hostname("test.example.com"), MemoryBackend::default());
    vfs.write("/data/file.txt", b"content").unwrap();
    let result = vfs.read("../data/file.txt");
    assert!(result.is_err());
    assert_eq!(result.unwrap_err().code(), "EINVAL");
    let result = vfs.read("data/../../etc/passwd");
    assert!(result.is_err());
    assert_eq!(result.unwrap_err().code(), "EINVAL");
}

#[test]
fn test_isolate_vfs_unicode_paths() {
    let mut vfs = IsolateVfs::new(VfsNamespace::from_hostname("test.example.com"), MemoryBackend::default());
    vfs.write("/文件.txt", b"content").unwrap();
    let content = vfs.read("/文件.txt").unwrap();
    assert_eq!(content, b"content");
}

#[test]
fn test_namespaces_keep_files_apart() {
    let mut vfs_a = IsolateVfs::new(VfsNamespace::from_hostname("app-a.example.com"), MemoryBackend::default());
    vfs_a.write("/secret.txt", b"app-a-secret").unwrap();
    let a = vfs_a.prefix_namespace("/secret.txt").unwrap();
    let vfs_b = IsolateVfs::new(VfsNamespace::from_hostname("app-b.example.com"), MemoryBackend::default());
    let b = vfs_b.prefix_namespace("/secret.txt").unwrap();
    assert_ne!(a.as_str(), b.as_str());
    assert_eq!(vfs_a.read("/secret.txt").unwrap(), b"app-a-secret");
}

#[test]
fn test_filesystem_basic() {
    let mut fs = FileSystem::new(MemoryBackend::default());
    fs.write("test.txt", b"hello world").unwrap();
    let content = fs.read("test.txt").unwrap();
    assert_eq!(content, b"hello world");
}

#[test]
fn test_filesystem_with_namespace() {
    let mut fs = FileSystem::with_namespace(MemoryBackend::default(), "app1".to_string());
    fs.write("test.txt", b"namespaced").unwrap();
    assert!(fs.exists_path("test.txt").unwrap());
    assert_eq!(fs.read("test.txt").unwrap(), b"namespaced");
}

#[test]
fn test_filesystem_traversal_blocked() {
    let fs = FileSystem::new(MemoryBackend::default());
    let result = fs.read("../etc/passwd");
    assert!(result.is_err());
    assert_eq!(result.unwrap_err().code(), "EINVAL");
}

#[test]
fn test_path_validator_refuses_long_and_dot_dot() {
    let v = PathValidator::new(10);
    assert!(v.validate("a/b").is_ok());
    assert!(v.validate("a/../b").is_err());
    assert!(v.validate("abcdefghijk").is_err());
}

#[test]
fn test_resource_limiter_checks() {
    let limits = ResourceLimits { max_file_size: 10, max_total_storage: 20, max_files: 2 };
    let mut limiter = ResourceLimiter::new(limits);
    assert!(limiter.check_write(5, true).is_ok());
    assert!(limiter.check_write(11, true).is_err());
    limiter.record_create(5);
    limiter.record_create(5);
    assert!(limiter.check_write(1, true).is_err());
    assert_eq!(limiter.current_usage(), (2, 10));
    limiter.record_delete(5);
    assert_eq!(limiter.current_usage(), (1, 5));
}

#[test]
fn test_vfs_path_normalizes() {
    assert_eq!(VfsPath::new("/a//b/./c/").unwrap().as_str(), "a/b/c");
    assert!(VfsPath::new("a/../b").is_err());
}

#[test]
fn test_isolate_vfs_namespace_isolation() {
    let mut shared = MemoryBackend::default();
    let ns_a = VfsNamespace::from_hostname("app-a.example.com");
    let ns_b = VfsNamespace::from_hostname("app-b.example.com");
    ns_a.write_to(&mut shared, "/secret.txt", b"app-a-secret").unwrap();
    let result = ns_b.read_from(&shared, "/secret.txt");
    assert!(matches!(result, Err(VfsError::NotFound { .. })));
    assert_eq!(ns_a.read_from(&shared, "/secret.txt").unwrap(), b"app-a-secret");
    assert_eq!(shared.len(), 1);
    assert!(!ns_b.exists_in(&shared, "secret.txt").unwrap());
    assert!(ns_a.exists_in(&shared, "secret.txt").unwrap());
}

#[test]
fn test_shared_backend_delete_stays_in_namespace() {
    let mut shared = MemoryBackend::default();
    let ns_a = VfsNamespace::from_hostname("app-a.example.com");
    let ns_b = VfsNamespace::from_hostname("app-b.example.com");
    ns_a.write_to(&mut shared, "f.txt", b"a").unwrap();
    ns_b.write_to(&mut shared, "f.txt", b"b").unwrap();
    assert_eq!(shared.len(), 2);
    ns_b.delete_from(&mut shared, "f.txt").unwrap();
    assert_eq!(ns_a.read_from(&shared, "f.txt").unwrap(), b"a");
    assert!(matches!(ns_b.metadata_in(&shared, "f.txt"), Err(VfsError::NotFound { .. })));
    assert_eq!(ns_a.storage_path("f.txt").unwrap().as_str(), "app_a_example_com::f.txt");
}

#[test]
fn test_namespace_from_mixed_case_hostname() {
    assert_eq!(VfsNamespace::from_hostname("App-A.Example.com").as_str(), "app_a_example_com");
    assert_eq!(VfsNamespace::from_hostname("test.example.com").as_str(), "test_example_com");
    assert_eq!(VfsNamespace::from_hostname("ÄPP.example").as_str(), "äpp_example");
}

#[test]
fn test_snapshot_restore_keeps_counters() {
    let mut a = MemoryBackend::default();
    a.write(&VfsPath::new("file1.txt").unwrap(), &[1u8; 100]).unwrap();
    a.write(&VfsPath::new("dir/file2.txt").unwrap(), &[2u8; 50]).unwrap();
    let entries = a.snapshot_entries();
    let mut b = MemoryBackend::default();
    b.write(&VfsPath::new("old.txt").unwrap(), b"gone").unwrap();
    b.restore_from_snapshot(&entries);
    assert_eq!(b.current_usage(), (2, 150));
    assert_eq!(b.len(), 2);
    assert!(!b.exists_path(&VfsPath::new("old.txt").unwrap()));
    assert_eq!(b.read(&VfsPath::new("dir/file2.txt").unwrap()).unwrap(), vec![2u8; 50]);
}
