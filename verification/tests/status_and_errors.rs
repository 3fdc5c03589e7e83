use sync_watch::errors::{BackendError, RcloneError, StoreError};
use sync_watch::json::{JsonDoc, JsonNumber, JsonValue};
use sync_watch::sync::status::{create_sync_status, get_u64};
use sync_watch::types::{RemoteEntry, SyncStatus};

fn stats(transfers: Option<u64>, errors: Option<u64>, text: &str) -> JsonDoc {
    let mut entries = Vec::new();
    if let Some(e) = errors {
        entries.push(("errors".to_string(), JsonValue::Number(JsonNumber::PosInt(e))));
    }
    if let Some(t) = transfers {
        entries.push(("transfers".to_string(), JsonValue::Number(JsonNumber::PosInt(t))));
    }
    JsonDoc { value: JsonValue::Object(entries), text: text.to_string() }
}

#[test]
fn nothing_changed_is_up_to_date() {
    let s = create_sync_status(&stats(Some(0), Some(0), "{}"), "none").unwrap();
    assert!(matches!(s, SyncStatus::UpToDate));
    assert_eq!(s.to_string(), "Up to date.");
}

#[test]
fn transfers_without_errors_are_counted() {
    let s = create_sync_status(&stats(Some(3), Some(0), "{}"), "newer").unwrap();
    assert!(matches!(s, SyncStatus::Transferred { transferred: 3 }));
    assert_eq!(s.to_string(), "↑↓3");
}

#[test]
fn conflicts_with_resolution_none_need_action() {
    let s = create_sync_status(&stats(Some(4), Some(2), "{}"), "none").unwrap();
    assert!(matches!(s, SyncStatus::ActionRequired));
    assert_eq!(s.to_string(), "↯ Action required");
}

#[test]
fn conflicts_with_a_resolution_are_auto_resolved() {
    let s = create_sync_status(&stats(Some(12), Some(2), "{}"), "newer").unwrap();
    assert!(matches!(s, SyncStatus::AutoResolved { transferred: 12, conflicts: 2 }));
    assert_eq!(s.to_string(), "↑↓12 : 2↯ auto-resolved");
}

#[test]
fn errors_without_transfers_are_unexpected() {
    let text = "{\"errors\":1,\"transfers\":0}";
    match create_sync_status(&stats(Some(0), Some(1), text), "none") {
        Err(RcloneError::UnexpectedResponse(m)) => {
            assert_eq!(m, format!("unexpected stats response from rc daemon: {}", text))
        }
        other => panic!("unexpected {:?}", other),
    }
}

#[test]
fn missing_transfers_is_reported_first() {
    let text = "{\"x\":1}";
    match create_sync_status(&stats(None, None, text), "none") {
        Err(RcloneError::UnexpectedResponse(m)) => {
            assert_eq!(m, "missing or invalid 'transfers' field in stats: {\"x\":1}")
        }
        other => panic!("unexpected {:?}", other),
    }
}

#[test]
fn missing_errors_is_reported() {
    match create_sync_status(&stats(Some(1), None, "T"), "none") {
        Err(RcloneError::UnexpectedResponse(m)) => {
            assert_eq!(m, "missing or invalid 'errors' field in stats: T")
        }
        other => panic!("unexpected {:?}", other),
    }
}

#[test]
fn negative_or_float_counts_are_not_counts() {
    let doc = JsonDoc {
        value: JsonValue::Object(vec![
            ("a".to_string(), JsonValue::Number(JsonNumber::NegInt(-1))),
            ("b".to_string(), JsonValue::Number(JsonNumber::Float("1.5".to_string()))),
            ("c".to_string(), JsonValue::Str("7".to_string())),
            ("d".to_string(), JsonValue::Number(JsonNumber::PosInt(u64::MAX))),
        ]),
        text: "D".to_string(),
    };
    assert!(get_u64(&doc, "a").is_err());
    let hand_built = JsonDoc {
        value: JsonValue::Object(vec![("n".to_string(), JsonValue::Number(JsonNumber::NegInt(5)))]),
        text: "{\"n\":5}".to_string(),
    };
    assert_eq!(get_u64(&hand_built, "n").unwrap(), 5);
    assert!(get_u64(&doc, "b").is_err());
    assert!(get_u64(&doc, "c").is_err());
    assert_eq!(get_u64(&doc, "d").unwrap(), u64::MAX);
    let not_object = JsonDoc { value: JsonValue::Array(vec![]), text: "[]".to_string() };
    assert!(get_u64(&not_object, "d").is_err());
}

#[test]
fn status_texts() {
    assert_eq!(SyncStatus::Syncing.to_string(), "Syncing...");
    assert_eq!(SyncStatus::Error { message: "boom".to_string() }.to_string(), "Error: boom");
    assert_eq!(SyncStatus::Transferred { transferred: 0 }.to_string(), "↑↓0");
    assert_eq!(
        SyncStatus::Transferred { transferred: 18446744073709551615 }.to_string(),
        "↑↓18446744073709551615"
    );
    assert!(matches!(SyncStatus::default(), SyncStatus::UpToDate));
}

#[test]
fn remote_entry_defaults() {
    let e = RemoteEntry::default();
    assert!(!e.locked);
    assert_eq!(e.local_path, "");
    assert_eq!(e.remote_path, "");
    assert!(!e.timer_enabled);
    assert_eq!(e.poll_interval, 60);
    assert!(!e.watch_enabled);
    assert_eq!(e.watch_debounce, 2);
    assert_eq!(e.conflict_resolve, "none");
    assert_eq!(e.conflict_loser, "num");
    assert!(matches!(e.status, SyncStatus::UpToDate));
    assert!(!e.bisync_initialized);
}

#[test]
fn rclone_error_messages() {
    assert_eq!(RcloneError::NotInstalled.to_string(), "rclone not found on PATH");
    assert_eq!(RcloneError::InstalledCheckFail("x".into()).to_string(), "rclone version check failed: x");
    assert_eq!(RcloneError::DaemonFailedToStart("x".into()).to_string(), "daemon failed to start: x");
    assert_eq!(RcloneError::DaemonFailedToStop("x".into()).to_string(), "daemon failed to stop: x");
    assert_eq!(RcloneError::DaemonNotRunning.to_string(), "daemon is not running");
    assert_eq!(RcloneError::RcCallFailed("x".into()).to_string(), "rc call failed: x");
    assert_eq!(RcloneError::UnexpectedResponse("x".into()).to_string(), "unexpected response: x");
    assert_eq!(RcloneError::Timeout.to_string(), "timed out");
}

#[test]
fn store_and_backend_error_messages() {
    assert_eq!(StoreError::ReadFailed("r".into()).to_string(), "read failed: r");
    assert_eq!(StoreError::WriteFailed("w".into()).to_string(), "write failed: w");
    assert_eq!(StoreError::Other("o".into()).to_string(), "unexpected error: o");
    assert_eq!(BackendError::Other("o".into()).to_string(), "unexpected error: o");
}

#[test]
fn wrapped_errors_display_transparently() {
    let b = BackendError::from(RcloneError::Timeout);
    assert!(matches!(b, BackendError::Rclone(RcloneError::Timeout)));
    assert_eq!(b.to_string(), "timed out");
    let s = BackendError::from(StoreError::ReadFailed("disk".into()));
    assert_eq!(s.to_string(), "read failed: disk");
}

#[test]
fn debug_text_matches_debug_formatting() {
    let all = vec![
        RcloneError::NotInstalled,
        RcloneError::InstalledCheckFail("a \"q\"\n".into()),
        RcloneError::DaemonFailedToStart("b".into()),
        RcloneError::DaemonFailedToStop("c\\".into()),
        RcloneError::DaemonNotRunning,
        RcloneError::RcCallFailed("http 500: ↯".into()),
        RcloneError::UnexpectedResponse("{}".into()),
        RcloneError::Timeout,
    ];
    for e in all {
        assert_eq!(e.debug_text(), format!("{:?}", e));
    }
    assert_eq!(RcloneError::RcCallFailed("x".into()).debug_text(), "RcCallFailed(\"x\")");
}
