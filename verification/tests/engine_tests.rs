use nano_runtime::engine::platform::PlatformError;
use nano_runtime::engine::snapshot::{
    global_snapshot, init_global_snapshot, init_global_snapshot_from_file, is_snapshot_initialized,
    is_snapshot_valid, GlobalSnapshot, SnapshotCache,
};
use nano_runtime::wasm::{WasmError, WasmLoader, WasmModule};

#[test]
fn test_empty_snapshot() {
    let snapshot = SnapshotCache::from_data(vec![]);
    assert!(!snapshot.is_valid());
}

#[test]
fn test_valid_snapshot() {
    let snapshot = SnapshotCache::from_data(vec![1, 2, 3, 4]);
    assert!(snapshot.is_valid());
    assert_eq!(snapshot.data().len(), 4);
}

#[test]
fn test_global_snapshot_set_once() {
    let mut global = GlobalSnapshot::new();
    assert!(!is_snapshot_initialized(&global));
    assert!(init_global_snapshot(&mut global, vec![1, 2]).is_ok());
    assert!(init_global_snapshot(&mut global, vec![3]).is_err());
    assert_eq!(global_snapshot(&global).unwrap().data(), &[1, 2]);
    assert!(is_snapshot_valid(&global));
}

#[test]
fn test_snapshot_file_must_not_be_empty() {
    let mut global = GlobalSnapshot::new();
    assert!(init_global_snapshot_from_file(&mut global, vec![]).is_err());
    assert!(!is_snapshot_initialized(&global));
    assert!(init_global_snapshot_from_file(&mut global, vec![9]).is_ok());
}

#[test]
fn test_platform_error_messages() {
    assert_eq!(PlatformError::AlreadyInitialized.message(), "V8 platform already initialized");
    assert_eq!(PlatformError::V8Init("x".to_string()).message(), "Failed to initialize V8: x");
}

#[test]
fn test_validation_helper() {
    let valid_wasm = b"\0asm\x01\x00\x00\x00";
    assert!(WasmLoader::validate(valid_wasm).is_ok());
    let invalid_wasm = b"invalid";
    assert!(WasmLoader::validate(invalid_wasm).is_err());
}

#[test]
fn test_wasm_header_errors() {
    assert!(matches!(WasmLoader::validate(b"\0asm"), Err(WasmError::TooShort { len: 4 })));
    assert!(matches!(WasmLoader::validate(b"\0asX\x01\0\0\0"), Err(WasmError::InvalidMagic)));
    assert!(matches!(
        WasmLoader::validate(b"\0asm\x02\x00\x00\x00"),
        Err(WasmError::UnsupportedVersion { version: 2 })
    ));
}

#[test]
fn test_wasm_module_accessors() {
    let m = WasmModule::from_bytes_with_path(b"\0asm\x01\x00\x00\x00".to_vec(), "/m.wasm").unwrap();
    assert_eq!(m.size(), 8);
    assert_eq!(m.path(), Some("/m.wasm"));
    assert!(WasmModule::from_bytes(b"nope".to_vec()).is_err());
}

#[test]
fn test_global_snapshot_error_messages() {
    let mut global = GlobalSnapshot::new();
    assert_eq!(init_global_snapshot_from_file(&mut global, vec![]).unwrap_err(), "Snapshot file is empty");
    init_global_snapshot(&mut global, vec![1, 2, 3]).unwrap();
    assert_eq!(init_global_snapshot(&mut global, vec![4]).unwrap_err(), "Global snapshot already initialized");
    assert_eq!(init_global_snapshot_from_file(&mut global, vec![5]).unwrap_err(), "Global snapshot already initialized");
    assert_eq!(global_snapshot(&global).unwrap().data(), &[1u8, 2, 3][..]);
}
