use sync_watch::errors::RcloneError;
use sync_watch::json::{JsonDoc, JsonNumber, JsonValue};
use sync_watch::sync::commands_inner::{
    bisync_rc_params, get_string, get_trimmed_array, rclone_version_from, CommandOutput, ListingPhase, SpawnFailure,
    ListingStep, RcCall, RemoteListing,
};
use sync_watch::sync::daemon::{
    probe_answered, rc_call_result, DaemonStart, RcloneDaemon, StartAction, StartEvent, StartPhase,
};
use sync_watch::text::{first_line_of, strip_prefix, text_lt, trim_colons, u64_to_decimal};
use sync_watch::types::RemoteEntry;

fn s(x: &str) -> JsonValue {
    JsonValue::Str(x.to_string())
}

fn obj(entries: Vec<(&str, JsonValue)>) -> JsonValue {
    JsonValue::Object(entries.into_iter().map(|(k, v)| (k.to_string(), v)).collect())
}

fn doc(value: JsonValue, text: &str) -> JsonDoc {
    JsonDoc { value, text: text.to_string() }
}

fn member<'a>(v: &'a JsonValue, key: &str) -> &'a JsonValue {
    v.get(key).expect("member")
}

fn text_of(v: &JsonValue) -> String {
    v.as_str().expect("string").clone()
}

#[test]
fn trimmed_remote_names() {
    let d = doc(obj(vec![("remotes", JsonValue::Array(vec![s("gdrive:"), s("nas:"), JsonValue::Null, s("a::")]))]), "R");
    assert_eq!(get_trimmed_array(&d, "remotes").unwrap(), vec!["gdrive", "nas", "a"]);
    match get_trimmed_array(&d, "names") {
        Err(RcloneError::UnexpectedResponse(m)) => assert_eq!(m, "missing or invalid 'names' field in response: R"),
        other => panic!("unexpected {:?}", other),
    }
    let not_array = doc(obj(vec![("remotes", s("gdrive:"))]), "S");
    assert!(get_trimmed_array(&not_array, "remotes").is_err());
}

#[test]
fn string_fields() {
    let d = doc(obj(vec![("type", s("drive")), ("n", JsonValue::Number(JsonNumber::PosInt(1)))]), "C");
    assert_eq!(get_string(&d, "type").unwrap(), "drive");
    match get_string(&d, "n") {
        Err(RcloneError::UnexpectedResponse(m)) => assert_eq!(m, "missing or invalid 'n' field in response: C"),
        other => panic!("unexpected {:?}", other),
    }
}

#[test]
fn last_member_of_a_key_wins() {
    let v = obj(vec![("k", s("first")), ("k", s("second"))]);
    assert_eq!(text_of(member(&v, "k")), "second");
    assert!(v.get("missing").is_none());
    assert!(s("x").get("k").is_none());
}

fn entry(local: &str, remote: &str, resolve: &str, loser: &str) -> RemoteEntry {
    let mut e = RemoteEntry::default();
    e.local_path = local.to_string();
    e.remote_path = remote.to_string();
    e.conflict_resolve = resolve.to_string();
    e.conflict_loser = loser.to_string();
    e
}

#[test]
fn bisync_params_without_resync() {
    let p = bisync_rc_params("gdrive", &entry("/home/u/docs", "backup/docs", "newer", "num"), false);
    match &p {
        JsonValue::Object(entries) => assert_eq!(entries.len(), 4),
        _ => panic!("not an object"),
    }
    assert_eq!(text_of(member(&p, "path1")), "/home/u/docs");
    assert_eq!(text_of(member(&p, "path2")), "gdrive:backup/docs");
    assert_eq!(text_of(member(&p, "_group")), "bisync:gdrive");
    let cfg = member(&p, "_config");
    assert_eq!(text_of(member(cfg, "ConflictResolve")), "newer");
    assert_eq!(text_of(member(cfg, "ConflictLoser")), "num");
    assert!(p.get("resync").is_none());
}

#[test]
fn bisync_params_with_resync() {
    let p = bisync_rc_params("nas", &RemoteEntry::default(), true);
    assert!(matches!(member(&p, "resync"), JsonValue::Bool(true)));
    assert_eq!(text_of(member(&p, "path2")), "nas:");
    assert_eq!(text_of(member(member(&p, "_config"), "ConflictResolve")), "none");
}

#[test]
fn version_is_the_first_output_line() {
    let out = CommandOutput { success: true, stdout: b"rclone v1.68.2\n- os/version: x\n".to_vec() };
    assert_eq!(rclone_version_from(Ok(out)).unwrap(), "rclone v1.68.2");
    let crlf = CommandOutput { success: true, stdout: b"rclone v1.69.0\r\nmore".to_vec() };
    assert_eq!(rclone_version_from(Ok(crlf)).unwrap(), "rclone v1.69.0");
    let empty = CommandOutput { success: true, stdout: Vec::new() };
    assert_eq!(rclone_version_from(Ok(empty)).unwrap(), "rclone");
    let lossy = CommandOutput { success: true, stdout: vec![b'r', 0xff, b'\n'] };
    assert_eq!(rclone_version_from(Ok(lossy)).unwrap(), "r\u{fffd}");
}

#[test]
fn failed_version_checks() {
    let out = CommandOutput { success: false, stdout: b"rclone v1".to_vec() };
    assert!(matches!(rclone_version_from(Ok(out)), Err(RcloneError::NotInstalled)));
    let missing = SpawnFailure { not_found: true, detail: "Kind(NotFound)".to_string() };
    assert!(matches!(rclone_version_from(Err(missing)), Err(RcloneError::NotInstalled)));
    let denied = SpawnFailure { not_found: false, detail: "Kind(PermissionDenied)".to_string() };
    match rclone_version_from(Err(denied)) {
        Err(RcloneError::InstalledCheckFail(m)) => assert_eq!(m, "Failed to check rclone version: Kind(PermissionDenied)"),
        other => panic!("unexpected {:?}", other),
    }
}

#[test]
fn daemon_addresses() {
    let d = RcloneDaemon::new("rclone".to_string());
    assert_eq!(d.rc_addr, "127.0.0.1:5572");
    assert_eq!(d.delta, 5);
    assert_eq!(d.spawn_args(), vec!["rcd", "--rc-addr", "127.0.0.1:5572", "--rc-no-auth"]);
    assert_eq!(d.noop_url(), "http://127.0.0.1:5572/rc/noop");
    assert_eq!(d.rc_url("config/listremotes"), "http://127.0.0.1:5572/config/listremotes");
}

#[test]
fn probes() {
    assert!(probe_answered(Ok(200)));
    assert!(probe_answered(Ok(299)));
    assert!(!probe_answered(Ok(300)));
    assert!(!probe_answered(Ok(500)));
    assert!(!probe_answered(Err("refused".to_string())));
}

#[test]
fn rc_replies() {
    let ok = rc_call_result(200, "{}".to_string(), Ok(doc(obj(vec![]), "{}"))).unwrap();
    assert_eq!(ok.text, "{}");
    match rc_call_result(404, "not found".to_string(), Err("ignored".to_string())) {
        Err(RcloneError::RcCallFailed(m)) => assert_eq!(m, "http 404: not found"),
        other => panic!("unexpected {:?}", other),
    }
    match rc_call_result(200, "oops".to_string(), Err("expected value at line 1 column 1".to_string())) {
        Err(RcloneError::RcCallFailed(m)) => assert_eq!(m, "expected value at line 1 column 1 response=oops"),
        other => panic!("unexpected {:?}", other),
    }
}

#[test]
fn start_answers_on_first_probe() {
    let (mut st, a) = DaemonStart::new();
    assert!(matches!(a, StartAction::Spawn));
    assert!(matches!(st.step(StartEvent::Spawned(Ok(()))), StartAction::CheckDeadline));
    assert!(matches!(st.step(StartEvent::DeadlineChecked(false)), StartAction::Probe));
    assert!(matches!(st.step(StartEvent::Probed(false)), StartAction::Wait(50)));
    assert!(matches!(st.step(StartEvent::Waited), StartAction::CheckDeadline));
    assert!(matches!(st.step(StartEvent::DeadlineChecked(false)), StartAction::Probe));
    assert!(matches!(st.step(StartEvent::Probed(true)), StartAction::Done(Ok(()))));
    assert_eq!(st.phase(), StartPhase::Finished);
    assert!(!st.expects(&StartEvent::Waited));
}

#[test]
fn start_times_out_after_stopping() {
    let (mut st, _) = DaemonStart::new();
    st.step(StartEvent::Spawned(Ok(())));
    assert!(matches!(st.step(StartEvent::DeadlineChecked(true)), StartAction::Stop));
    assert!(st.expects(&StartEvent::Stopped(Ok(()))));
    assert!(matches!(st.step(StartEvent::Stopped(Ok(()))), StartAction::Done(Err(RcloneError::Timeout))));
}

#[test]
fn start_fails_to_spawn() {
    let (mut st, _) = DaemonStart::new();
    assert!(!st.expects(&StartEvent::Probed(true)));
    match st.step(StartEvent::Spawned(Err("No such file".to_string()))) {
        StartAction::Done(Err(RcloneError::DaemonFailedToStart(m))) => assert_eq!(m, "No such file"),
        _ => panic!("unexpected action"),
    }
}

#[test]
fn failed_stop_is_reported() {
    let (mut st, _) = DaemonStart::new();
    st.step(StartEvent::Spawned(Ok(())));
    st.step(StartEvent::DeadlineChecked(true));
    let a = st.step(StartEvent::Stopped(Err(RcloneError::DaemonFailedToStop("x".into()))));
    assert!(matches!(a, StartAction::Done(Err(RcloneError::DaemonFailedToStop(_)))));
}

fn call_of(step: ListingStep) -> RcCall {
    match step {
        ListingStep::Call(c) => c,
        ListingStep::Finish(r) => panic!("finished early: {:?}", r.map(|v| v.len())),
    }
}

#[test]
fn listing_collects_every_remote_in_order() {
    let (mut l, first) = RemoteListing::new();
    let c = call_of(first);
    assert_eq!(c.method, "config/listremotes");
    let names = doc(obj(vec![("remotes", JsonValue::Array(vec![s("gdrive:"), s("nas:")]))]), "N");
    let c = call_of(l.on_reply(Ok(names)));
    assert_eq!(c.method, "config/get");
    assert_eq!(text_of(member(&c.params, "name")), "gdrive");
    let c = call_of(l.on_reply(Ok(doc(obj(vec![("type", s("drive")), ("scope", s("drive"))]), "G"))));
    assert_eq!(text_of(member(&c.params, "name")), "nas");
    match l.on_reply(Ok(doc(obj(vec![("type", s("sftp"))]), "S"))) {
        ListingStep::Finish(Ok(v)) => {
            assert_eq!(v.len(), 2);
            assert_eq!(v[0].name, "gdrive");
            assert_eq!(v[0].remote_type, "drive");
            assert_eq!(v[1].name, "nas");
            assert_eq!(v[1].remote_type, "sftp");
        }
        _ => panic!("expected the list"),
    }
    assert_eq!(l.phase(), ListingPhase::Finished);
}

#[test]
fn listing_without_remotes_is_empty() {
    let (mut l, _) = RemoteListing::new();
    match l.on_reply(Ok(doc(obj(vec![("remotes", JsonValue::Array(vec![]))]), "E"))) {
        ListingStep::Finish(Ok(v)) => assert!(v.is_empty()),
        _ => panic!("expected an empty list"),
    }
}

#[test]
fn listing_passes_on_a_failed_list_call() {
    let (mut l, _) = RemoteListing::new();
    match l.on_reply(Err(RcloneError::RcCallFailed("down".into()))) {
        ListingStep::Finish(Err(RcloneError::RcCallFailed(m))) => assert_eq!(m, "down"),
        _ => panic!("expected the error"),
    }
}

#[test]
fn listing_names_a_remote_whose_config_failed() {
    let (mut l, _) = RemoteListing::new();
    l.on_reply(Ok(doc(obj(vec![("remotes", JsonValue::Array(vec![s("gdrive:")]))]), "N")));
    match l.on_reply(Err(RcloneError::RcCallFailed("http 500: x".into()))) {
        ListingStep::Finish(Err(RcloneError::RcCallFailed(m))) => {
            assert_eq!(m, "Failed to get config for gdrive: RcCallFailed(\"http 500: x\")")
        }
        _ => panic!("expected the error"),
    }
}

#[test]
fn listing_reports_a_config_without_type() {
    let (mut l, _) = RemoteListing::new();
    l.on_reply(Ok(doc(obj(vec![("remotes", JsonValue::Array(vec![s("a:")]))]), "N")));
    match l.on_reply(Ok(doc(obj(vec![]), "{}"))) {
        ListingStep::Finish(Err(RcloneError::UnexpectedResponse(m))) => {
            assert_eq!(m, "missing or invalid 'type' field in response: {}")
        }
        _ => panic!("expected the error"),
    }
    let (mut l2, _) = RemoteListing::new();
    match l2.on_reply(Ok(doc(obj(vec![]), "{}"))) {
        ListingStep::Finish(Err(RcloneError::UnexpectedResponse(m))) => {
            assert_eq!(m, "missing or invalid 'remotes' field in response: {}")
        }
        _ => panic!("expected the error"),
    }
}

#[test]
fn text_helpers() {
    assert_eq!(u64_to_decimal(0), "0");
    assert_eq!(u64_to_decimal(1234567890), "1234567890");
    assert_eq!(trim_colons("gdrive:::"), "gdrive");
    assert_eq!(trim_colons(":a:b"), ":a:b");
    assert_eq!(trim_colons(""), "");
    assert_eq!(strip_prefix("remote::x", "remote::"), Some("x".to_string()));
    assert_eq!(strip_prefix("remote:", "remote::"), None);
    assert_eq!(first_line_of(""), None);
    assert_eq!(first_line_of("\n"), Some(String::new()));
    assert_eq!(first_line_of("a\r"), Some("a\r".to_string()));
    assert_eq!(first_line_of("ünï\r\nx"), Some("ünï".to_string()));
    assert!(text_lt("a", "b"));
    assert!(text_lt("ab", "abc"));
    assert!(!text_lt("b", "abc"));
    assert!(!text_lt("abc", "abc"));
    assert!(text_lt("Z", "a"));
}
