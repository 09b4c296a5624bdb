use nano_runtime::runtime::env::{
    env_for_hostname, register_hostname_env, set_current_env, set_current_hostname, HostState,
    HostnameEnvRegistry,
};
use nano_runtime::runtime::fetch::{check_fetch_url, BodyType, FetchState, HttpClientError};
use nano_runtime::runtime::response::{is_header_property, response_status};
use nano_runtime::runtime::stream::StreamResourceTable;
use nano_runtime::runtime::timers::TimerState;
use nano_runtime::runtime::types::{
    get_abort_state, register_abort_state, remove_abort_state, AbortRegistry, AbortSignalState, TimerHandle,
    TimerId, TimerIdCounter,
};

#[test]
fn test_resource_table_creation() {
    let table = StreamResourceTable::new();
    assert!(table.has(0) == false);
}

#[test]
fn test_add_resource() {
    let mut table = StreamResourceTable::new();
    let rid = table.add();
    assert!(rid > 0);
    assert!(table.has(rid));
}

#[test]
fn test_close_resource() {
    let mut table = StreamResourceTable::new();
    let rid = table.add();
    assert!(table.close(rid));
    assert!(!table.close(999));
}

#[test]
fn test_unique_resource_ids() {
    let mut table = StreamResourceTable::new();
    let rid1 = table.add();
    let rid2 = table.add();
    let rid3 = table.add();
    assert_ne!(rid1, rid2);
    assert_ne!(rid2, rid3);
    assert_ne!(rid1, rid3);
}

#[test]
fn test_closed_resource_is_still_present() {
    let mut table = StreamResourceTable::new();
    let rid = table.add();
    table.close(rid);
    assert!(table.has(rid));
}

#[test]
fn test_timer_id_generation() {
    let mut counter = TimerIdCounter::new();
    let id1 = TimerId::new(&mut counter);
    let id2 = TimerId::new(&mut counter);
    assert_ne!(id1.value(), id2.value());
}

#[test]
fn test_timer_handle_cancel() {
    let mut counter = TimerIdCounter::new();
    let mut handle = TimerHandle { id: TimerId::new(&mut counter), is_interval: false, cancelled: false };
    assert!(!handle.is_cancelled());
    handle.cancel();
    assert!(handle.is_cancelled());
}

#[test]
fn test_abort_signal_state() {
    let mut state = AbortSignalState::new();
    assert!(!state.is_aborted());
    state.abort(Some("test reason".to_string()));
    assert!(state.is_aborted());
    assert_eq!(state.get_reason(), Some("test reason".to_string()));
}

#[test]
fn test_abort_registry() {
    let mut registry = AbortRegistry::new();
    let state = AbortSignalState::new();
    let id = register_abort_state(&mut registry, state.clone());
    let retrieved = get_abort_state(&registry, id);
    assert!(retrieved.is_some());
    assert!(!retrieved.unwrap().is_aborted());
    remove_abort_state(&mut registry, id);
    assert!(get_abort_state(&registry, id).is_none());
}

#[test]
fn test_fetch_state_creation() {
    let state = FetchState::new();
    assert!(state.is_ok());
}

#[test]
fn test_abort_signal() {
    let mut state = FetchState::new().unwrap();
    let id = state.register_abort_signal();
    assert!(!state.is_aborted(id));
    state.abort(id);
    assert!(state.is_aborted(id));
}

#[test]
fn test_abort_signal_isolation() {
    let mut state = FetchState::new().unwrap();
    let id1 = state.register_abort_signal();
    let id2 = state.register_abort_signal();
    state.abort(id1);
    assert!(state.is_aborted(id1));
    assert!(!state.is_aborted(id2));
}

#[test]
fn test_unknown_abort_id_reads_as_aborted() {
    let state = FetchState::new().unwrap();
    assert!(state.is_aborted(42));
}

#[test]
fn test_error_conversion() {
    let network_err = HttpClientError::Network("connection refused".to_string());
    assert!(matches!(network_err, HttpClientError::Network(_)));
    let invalid_url_err = HttpClientError::InvalidUrl("bad url".to_string());
    assert!(matches!(invalid_url_err, HttpClientError::InvalidUrl(_)));
}

#[test]
fn test_fetch_invalid_url_schemes() {
    assert!(matches!(check_fetch_url("file:///etc/passwd"), Err(HttpClientError::InvalidUrl(_))));
    assert!(check_fetch_url("ftp://example.com").is_err());
    assert!(check_fetch_url("javascript:alert(1)").is_err());
    assert!(check_fetch_url("https://example.com").is_ok());
}

#[test]
fn test_body_type_is_stream() {
    assert!(!BodyType::NoBody.is_stream());
    assert!(!BodyType::Bytes(b"test".to_vec()).is_stream());
    assert!(BodyType::Stream.is_stream());
}

#[test]
fn test_body_type_content_length() {
    assert_eq!(BodyType::NoBody.content_length(), None);
    assert_eq!(BodyType::Stream.content_length(), None);
    assert_eq!(BodyType::Bytes(b"hello".to_vec()).content_length(), Some(5));
}

#[test]
fn test_timeout_ids_wrap_after_99() {
    let mut timers: TimerState<u8> = TimerState::new();
    let mut last = 0;
    for _ in 0..99 {
        last = timers.set_timeout(0, 0, 0);
    }
    assert_eq!(last, 99);
    assert_eq!(timers.set_timeout(0, 0, 0), 1);
}

#[test]
fn test_due_timeouts_are_taken_in_order() {
    let mut timers: TimerState<&str> = TimerState::new();
    timers.set_timeout("a", 0, 10);
    timers.set_timeout("b", 0, 50);
    timers.set_timeout("c", 0, 5);
    let due = timers.take_due_timeouts(20);
    let names: Vec<&str> = due.iter().map(|e| e.func).collect();
    assert_eq!(names, vec!["a", "c"]);
    let rest = timers.take_due_timeouts(100);
    assert_eq!(rest.len(), 1);
    assert_eq!(rest[0].func, "b");
}

#[test]
fn test_cleared_interval_is_not_rescheduled() {
    let mut timers: TimerState<u8> = TimerState::new();
    let id = timers.set_interval(7, 0, 10);
    assert_eq!(id, 100);
    let due = timers.take_due_intervals(10);
    assert_eq!(due.len(), 1);
    timers.clear_interval(id);
    for e in due {
        timers.reschedule_interval(e, 10);
    }
    timers.end_interval_batch();
    assert!(timers.take_due_intervals(1000).is_empty());
}

#[test]
fn test_interval_reschedules_after_firing() {
    let mut timers: TimerState<u8> = TimerState::new();
    timers.set_interval(1, 0, 10);
    let due = timers.take_due_intervals(10);
    for e in due {
        timers.reschedule_interval(e, 12);
    }
    timers.end_interval_batch();
    assert!(timers.take_due_intervals(21).is_empty());
    assert_eq!(timers.take_due_intervals(22).len(), 1);
}

#[test]
fn test_clear_pending_resets_ids() {
    let mut timers: TimerState<u8> = TimerState::new();
    timers.set_timeout(0, 0, 0);
    timers.set_interval(0, 0, 0);
    timers.clear_pending_timeouts();
    timers.clear_pending_intervals();
    assert_eq!(timers.set_timeout(0, 0, 0), 1);
    assert_eq!(timers.set_interval(0, 0, 0), 100);
}

#[test]
fn test_process_env_defaults_node_env() {
    let mut state = HostState::new();
    let env = state.process_env();
    assert_eq!(env, vec![("NODE_ENV".to_string(), "production".to_string())]);
    set_current_env(&mut state, Some(vec![("NODE_ENV".to_string(), "dev".to_string())]));
    assert_eq!(state.process_env(), vec![("NODE_ENV".to_string(), "dev".to_string())]);
}

#[test]
fn test_os_hostname_default() {
    let mut state = HostState::new();
    assert_eq!(state.os_hostname(), "nano");
    set_current_hostname(&mut state, Some("app.example.com".to_string()));
    assert_eq!(state.os_hostname(), "app.example.com");
}

#[test]
fn test_hostname_env_registry() {
    let mut registry = HostnameEnvRegistry::new();
    assert!(env_for_hostname(&registry, "a.example.com").is_none());
    register_hostname_env(&mut registry, "a.example.com".to_string(), vec![("K".to_string(), "1".to_string())]);
    register_hostname_env(&mut registry, "a.example.com".to_string(), vec![("K".to_string(), "2".to_string())]);
    assert_eq!(
        env_for_hostname(&registry, "a.example.com"),
        Some(vec![("K".to_string(), "2".to_string())])
    );
}

#[test]
fn test_timer_ids_start_at_one_and_increase() {
    let mut counter = TimerIdCounter::new();
    let a = TimerId::new(&mut counter);
    let b = TimerId::new(&mut counter);
    assert_eq!(a.value(), 1);
    assert!(1 <= a.value() && a.value() < b.value());
}

#[test]
fn test_response_status_and_header_properties() {
    assert_eq!(response_status(None), 200);
    assert_eq!(response_status(Some(404)), 404);
    assert_eq!(response_status(Some(65536 + 201)), 201);
    assert_eq!(response_status(Some(-1)), 65535);
    assert!(is_header_property("content-type"));
    assert!(is_header_property("_x"));
    assert!(!is_header_property("__headers__"));
    assert!(!is_header_property("set"));
    assert!(!is_header_property("get"));
    assert!(!is_header_property("forEach"));
}
