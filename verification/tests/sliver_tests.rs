use nano_runtime::sliver::error::SliverError;
use nano_runtime::sliver::extractor::SliverExtractor;
use nano_runtime::sliver::format::{
    SliverFormat, FORMAT_VERSION, HEAP_FILENAME, MANIFEST_FILENAME, METADATA_FILENAME, SLIVER_EXTENSION,
    VFS_PREFIX,
};
use nano_runtime::sliver::metadata::SliverMetadata;
use nano_runtime::sliver::packager::{create_cold_sliver_marker, directory_entrypoint, is_skipped_file};
use nano_runtime::sliver::packer::{build_manifest, pack_sliver, SliverPacker};
use nano_runtime::sliver::unpacker::{unpack_sliver, SliverUnpacker, UnpackedSliver};
use nano_runtime::sliver::validate_sliver;
use nano_runtime::sliver::vfs_capture::VfsCapture;
use nano_runtime::vfs::types::{VfsFile, VfsPath};

fn tar_with(members: &[(&str, &[u8])]) -> Vec<u8> {
    let mut builder = tar::Builder::new(Vec::new());
    for (name, data) in members {
        let mut header = tar::Header::new_gnu();
        header.set_path(name).unwrap();
        header.set_size(data.len() as u64);
        header.set_mode(0o644);
        header.set_cksum();
        builder.append(&header, *data).unwrap();
    }
    builder.finish().unwrap();
    builder.into_inner().unwrap()
}

#[test]
fn test_format_version() {
    assert_eq!(SliverFormat::version(), "1.0");
    assert!(SliverFormat::is_supported_version("1.0"));
    assert!(!SliverFormat::is_supported_version("0.9"));
    assert!(!SliverFormat::is_supported_version("2.0"));
}

#[test]
fn test_required_files() {
    let required = SliverFormat::required_files();
    assert!(required.contains(&"meta.json"));
    assert!(required.contains(&"heap.bin"));
}

#[test]
fn test_constants() {
    assert_eq!(HEAP_FILENAME, "heap.bin");
    assert_eq!(METADATA_FILENAME, "meta.json");
    assert_eq!(MANIFEST_FILENAME, "manifest.txt");
    assert_eq!(VFS_PREFIX, "vfs/");
    assert_eq!(SLIVER_EXTENSION, ".sliver");
}

#[test]
fn test_nano_version() {
    assert!(!SliverFormat::nano_version().is_empty());
}

#[test]
fn test_structure_documentation_names_members() {
    let doc = SliverFormat::structure_documentation();
    assert!(doc.contains("meta.json"));
    assert!(doc.contains("heap.bin"));
}

#[test]
fn test_build_manifest() {
    let entries = vec!["meta.json".to_string(), "heap.bin".to_string(), "vfs/test.txt".to_string()];
    let manifest = build_manifest(&entries);
    assert!(manifest.contains("# Sliver Archive Manifest"));
    assert!(manifest.contains("meta.json"));
    assert!(manifest.contains("heap.bin"));
    assert!(manifest.contains("vfs/test.txt"));
}

#[test]
fn test_build_manifest_exact_text() {
    let entries = vec!["a".to_string(), "b".to_string()];
    assert_eq!(
        build_manifest(&entries),
        "# Sliver Archive Manifest\n# =========================\n\na\nb\n"
    );
}

#[test]
fn test_validate_sliver_valid() {
    let metadata = SliverMetadata::new("app.example.com", "1.1.0");
    let heap_data = vec![0u8; 100];
    let archive = pack_sliver(&metadata, &heap_data, None).unwrap();
    assert!(validate_sliver(&archive).is_ok());
}

#[test]
fn test_validate_sliver_missing_heap() {
    let metadata = SliverMetadata::new("app.example.com", "1.1.0");
    let json = metadata.to_json();
    let archive = tar_with(&[(METADATA_FILENAME, &json)]);
    let result = validate_sliver(&archive);
    assert!(matches!(result, Err(SliverError::MissingHeap { .. })));
}

#[test]
fn test_module_exports() {
    let _ = SliverMetadata::new("test", "1.0.0");
    let _format_version = FORMAT_VERSION;
    let _heap_filename = HEAP_FILENAME;
    let _metadata_filename = METADATA_FILENAME;
}

#[test]
fn test_create_cold_sliver_marker() {
    let heap = create_cold_sliver_marker("index.js");
    assert!(heap.starts_with(b"NANO-DIR-v1\0"));
    let entrypoint = std::str::from_utf8(&heap[12..]).unwrap();
    assert_eq!(entrypoint, "index.js");
}

#[test]
fn test_detect_entrypoint_js() {
    assert_eq!(directory_entrypoint(&vec!["index.js".to_string()]), "index.js");
}

#[test]
fn test_detect_entrypoint_html() {
    assert_eq!(directory_entrypoint(&vec!["index.html".to_string()]), "index.html");
}

#[test]
fn test_detect_entrypoint_priority() {
    assert_eq!(directory_entrypoint(&vec!["index.html".to_string(), "index.js".to_string()]), "index.js");
}

#[test]
fn test_detect_entrypoint_fallback() {
    assert_eq!(directory_entrypoint(&vec![]), "index.html");
}

#[test]
fn test_skipped_directory_files() {
    assert!(is_skipped_file(".env"));
    assert!(is_skipped_file("app.sliver"));
    assert!(!is_skipped_file("index.js"));
}

#[test]
fn test_packer_basic() {
    let metadata = SliverMetadata::new("app.example.com", "1.1.0");
    let heap_data = vec![0u8; 1024];
    let archive = pack_sliver(&metadata, &heap_data, None).unwrap();
    assert!(!archive.is_empty());
    assert_eq!(&archive[257..262], b"ustar");
}

#[test]
fn test_packer_with_vfs() {
    let metadata = SliverMetadata::new("app.example.com", "1.1.0");
    let heap_data = vec![0u8; 1024];
    let vfs_entries = vec![
        (VfsPath::new("config.json").unwrap(), VfsFile::new(b"{\"key\": \"value\"}".to_vec())),
        (VfsPath::new("data/users.txt").unwrap(), VfsFile::new(b"user1\nuser2".to_vec())),
    ];
    let archive = pack_sliver(&metadata, &heap_data, Some(&vfs_entries)).unwrap();
    assert!(!archive.is_empty());
}

#[test]
fn test_manifest_generation() {
    let mut packer = SliverPacker::new();
    let metadata = SliverMetadata::new("app.example.com", "1.1.0");
    packer.add_metadata(&metadata).unwrap();
    packer.add_heap(&[0u8; 100]).unwrap();
    let archive = packer.finalize().unwrap();
    assert!(!archive.is_empty());
}

#[test]
fn test_binary_content_preservation() {
    let metadata = SliverMetadata::new("app.example.com", "1.1.0");
    let heap_data = vec![0u8; 100];
    let binary_content: Vec<u8> = vec![0x00, 0x01, 0xFF, 0xFE, 0xFD];
    let vfs_entries = vec![(VfsPath::new("binary.dat").unwrap(), VfsFile::new(binary_content.clone()))];
    let archive = pack_sliver(&metadata, &heap_data, Some(&vfs_entries)).unwrap();
    let unpacked = unpack_sliver(&archive).unwrap();
    assert_eq!(unpacked.vfs_entries[0].1.content, binary_content);
}

#[test]
fn test_pack_refuses_long_member_name() {
    let metadata = SliverMetadata::new("app.example.com", "1.1.0");
    let long = "x".repeat(97);
    let vfs_entries = vec![(VfsPath::new(&long).unwrap(), VfsFile::new(b"1".to_vec()))];
    let result = pack_sliver(&metadata, &[1u8], Some(&vfs_entries));
    assert!(matches!(result, Err(SliverError::Io(_))));
    let ok = "x".repeat(96);
    let vfs_entries = vec![(VfsPath::new(&ok).unwrap(), VfsFile::new(b"1".to_vec()))];
    assert!(pack_sliver(&metadata, &[1u8], Some(&vfs_entries)).is_ok());
}

#[test]
fn test_unpack_basic() {
    let metadata = SliverMetadata::new("app.example.com", "1.1.0");
    let heap_data = vec![0xABu8; 1024];
    let archive = pack_sliver(&metadata, &heap_data, None).unwrap();
    let unpacked = unpack_sliver(&archive).unwrap();
    assert_eq!(unpacked.metadata.hostname, "app.example.com");
    assert_eq!(unpacked.heap_data, heap_data);
    assert!(unpacked.vfs_entries.is_empty());
}

#[test]
fn test_unpack_with_vfs() {
    let metadata = SliverMetadata::new("app.example.com", "1.1.0");
    let heap_data = vec![0xCDu8; 512];
    let vfs_entries = vec![
        (VfsPath::new("test.txt").unwrap(), VfsFile::new(b"Hello, World!".to_vec())),
        (VfsPath::new("data/config.json").unwrap(), VfsFile::new(b"{\"key\": \"value\"}".to_vec())),
    ];
    let archive = pack_sliver(&metadata, &heap_data, Some(&vfs_entries)).unwrap();
    let unpacked = unpack_sliver(&archive).unwrap();
    assert_eq!(unpacked.vfs_entries.len(), 2);
    let test_entry = unpacked.vfs_entries.iter().find(|(p, _)| p.as_str() == "test.txt").expect("test.txt should exist");
    assert_eq!(test_entry.1.content, b"Hello, World!");
    let config_entry = unpacked
        .vfs_entries
        .iter()
        .find(|(p, _)| p.as_str() == "data/config.json")
        .expect("config.json should exist");
    assert_eq!(config_entry.1.content, b"{\"key\": \"value\"}");
}

#[test]
fn test_unpack_missing_metadata() {
    let archive = tar_with(&[(HEAP_FILENAME, &[0u8; 100])]);
    let result = unpack_sliver(&archive);
    assert!(matches!(result, Err(SliverError::MissingMetadata { .. })));
}

#[test]
fn test_unpack_missing_heap() {
    let metadata = SliverMetadata::new("app.example.com", "1.1.0");
    let json = metadata.to_json();
    let archive = tar_with(&[(METADATA_FILENAME, &json)]);
    let result = unpack_sliver(&archive);
    assert!(matches!(result, Err(SliverError::MissingHeap { .. })));
}

#[test]
fn test_unpack_invalid_version() {
    let mut metadata = SliverMetadata::new("app.example.com", "1.1.0");
    metadata.format_version = "0.5".to_string();
    let json = metadata.to_json();
    let archive = tar_with(&[(METADATA_FILENAME, &json), (HEAP_FILENAME, &[0u8; 100])]);
    let result = unpack_sliver(&archive);
    assert!(matches!(result, Err(SliverError::InvalidFormat { .. })));
}

#[test]
fn test_unpack_corrupted_archive() {
    let garbage = vec![0xFFu8; 100];
    let result = unpack_sliver(&garbage);
    assert!(result.is_err());
}

#[test]
fn test_unpack_bad_metadata_json() {
    let archive = tar_with(&[(METADATA_FILENAME, b"{not json"), (HEAP_FILENAME, &[1u8])]);
    assert!(matches!(unpack_sliver(&archive), Err(SliverError::Json(_))));
}

#[test]
fn test_unpack_invalid_vfs_path() {
    let metadata = SliverMetadata::new("app.example.com", "1.1.0");
    let json = metadata.to_json();
    let mut builder = tar::Builder::new(Vec::new());
    for (name, data) in [(METADATA_FILENAME, &json[..]), (HEAP_FILENAME, &[1u8][..])] {
        let mut header = tar::Header::new_gnu();
        header.set_path(name).unwrap();
        header.set_size(data.len() as u64);
        header.set_cksum();
        builder.append(&header, data).unwrap();
    }
    let mut header = tar::Header::new_gnu();
    let name = b"vfs/a/../b";
    header.as_mut_bytes()[..name.len()].copy_from_slice(name);
    header.set_size(1);
    header.set_cksum();
    builder.append(&header, &b"x"[..]).unwrap();
    let archive = builder.into_inner().unwrap();
    let result = unpack_sliver(&archive);
    assert!(matches!(result, Err(SliverError::InvalidVfsPath { ref path }) if path == "a/../b"));
}

#[test]
fn test_unpack_and_validate_empty_heap() {
    let metadata = SliverMetadata::new("app.example.com", "1.1.0");
    let archive = pack_sliver(&metadata, &[], None).unwrap();
    assert!(unpack_sliver(&archive).is_ok());
    let result = SliverUnpacker::unpack_and_validate(&archive);
    assert!(matches!(result, Err(SliverError::CorruptedArchive { .. })));
}

#[test]
fn test_unpacked_sliver_summary() {
    let metadata = SliverMetadata::new("app.example.com", "1.1.0");
    let heap_data = vec![0u8; 1024];
    let unpacked = UnpackedSliver::new(metadata, heap_data, vec![]);
    let summary = unpacked.summary();
    assert!(summary.contains("app.example.com"));
    assert!(summary.contains("1.0"));
    assert!(summary.contains("1024 bytes"));
    assert!(summary.contains("0 entries"));
}

#[test]
fn test_total_size_counts_all_parts() {
    let metadata = SliverMetadata::new("h", "1");
    let json_len = metadata.to_json().len();
    let unpacked = UnpackedSliver::new(
        metadata,
        vec![0u8; 10],
        vec![(VfsPath::new("a").unwrap(), VfsFile::new(vec![1u8; 5]))],
    );
    assert_eq!(unpacked.total_size(), json_len + 15);
}

#[test]
fn test_metadata_json_roundtrip() {
    let mut metadata = SliverMetadata::new("app.example.com", "1.1.0");
    metadata.name = Some("app \"quoted\"\n".to_string());
    metadata.set_custom("tag".to_string(), "v1".to_string());
    metadata.set_custom("tag".to_string(), "v2".to_string());
    let back = SliverMetadata::from_json(&metadata.to_json()).unwrap();
    assert_eq!(back.hostname, "app.example.com");
    assert_eq!(back.name, metadata.name);
    assert_eq!(back.custom, vec![("tag".to_string(), "v2".to_string())]);
}

#[test]
fn test_vfs_capture_new() {
    let capture = VfsCapture::new();
    assert_eq!(capture.file_count(), 0);
    assert_eq!(capture.total_bytes(), 0);
    assert!(capture.files().is_empty());
}

#[test]
fn test_vfs_capture_add_file() {
    let mut capture = VfsCapture::new();
    let path = VfsPath::new("test.txt").unwrap();
    let file = VfsFile::new(b"Hello, World!".to_vec());
    capture.add_file(path.clone(), file);
    assert_eq!(capture.file_count(), 1);
    assert_eq!(capture.total_bytes(), 13);
    assert!(capture.has_path(path.as_str()));
}

#[test]
fn test_vfs_capture_into_vec() {
    let mut capture = VfsCapture::new();
    let path1 = VfsPath::new("/file1.txt").unwrap();
    capture.add_file(path1, VfsFile::new(b"content1".to_vec()));
    let path2 = VfsPath::new("/file2.txt").unwrap();
    capture.add_file(path2, VfsFile::new(b"content2".to_vec()));
    let vec = capture.into_vec();
    assert_eq!(vec.len(), 2);
}

#[test]
fn test_detect_entrypoint_order() {
    let entries = vec![
        (VfsPath::new("server.js").unwrap(), VfsFile::new(vec![])),
        (VfsPath::new("app.js").unwrap(), VfsFile::new(vec![])),
    ];
    assert_eq!(SliverExtractor::detect_entrypoint(&entries), "app.js");
    assert_eq!(SliverExtractor::detect_entrypoint(&[]), "index.js");
}

#[test]
fn test_choose_entrypoint_falls_back_to_js() {
    let entries = vec![
        (VfsPath::new("readme.md").unwrap(), VfsFile::new(vec![])),
        (VfsPath::new("lib/run.js").unwrap(), VfsFile::new(vec![])),
    ];
    assert_eq!(SliverExtractor::choose_entrypoint(&entries, false).unwrap(), "lib/run.js");
    assert!(matches!(
        SliverExtractor::choose_entrypoint(&entries[..1], false),
        Err(SliverError::VfsRestore { .. })
    ));
}

#[test]
fn test_packer_header_mode_and_mtime() {
    let metadata = SliverMetadata::new("app.example.com", "1.1.0");
    let mut file = VfsFile::new(b"hello".to_vec());
    file.modified_at = 1_700_000_000_987_654_321;
    let vfs_entries = vec![(VfsPath::new("a.txt").unwrap(), file)];
    let archive = pack_sliver(&metadata, &[9u8; 4], Some(&vfs_entries)).unwrap();
    let mut reader = tar::Archive::new(archive.as_slice());
    let mut seen = Vec::new();
    for entry in reader.entries().unwrap() {
        let entry = entry.unwrap();
        let header = entry.header();
        let name = entry.path().unwrap().to_string_lossy().to_string();
        seen.push((name, header.mode().unwrap(), header.mtime().unwrap()));
    }
    assert_eq!(
        seen,
        vec![
            ("meta.json".to_string(), 0o644, 0),
            ("heap.bin".to_string(), 0o644, 0),
            ("vfs/a.txt".to_string(), 0o644, 1_700_000_000),
            ("manifest.txt".to_string(), 0o644, 0),
        ]
    );
}
