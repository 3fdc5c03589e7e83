use sync_watch::tray::manager::{MenuCommand, MenuEntry, TrayManager};
use sync_watch::tray::status::SyncStatus;
use sync_watch::types::RemoteEntry;

fn remote_lines(menu: &[MenuEntry]) -> Vec<(String, String, bool)> {
    menu.iter()
        .filter_map(|e| match e {
            MenuEntry::Remote { id, label, enabled } => Some((id.clone(), label.clone(), *enabled)),
            _ => None,
        })
        .collect()
}

fn locked(name: &str, is_locked: bool) -> (String, RemoteEntry) {
    let mut e = RemoteEntry::default();
    e.locked = is_locked;
    (name.to_string(), e)
}

#[test]
fn menu_lists_remotes_in_name_order_then_commands() {
    let mut t = TrayManager::new();
    t.set_remotes(vec![
        ("nas".to_string(), SyncStatus::Transferred { transferred: 3 }),
        ("gdrive".to_string(), SyncStatus::UpToDate),
        ("box".to_string(), SyncStatus::ActionRequired),
    ]);
    let menu = t.build_menu(&vec![locked("nas", true)]);
    assert_eq!(menu.len(), 6);
    assert_eq!(
        remote_lines(&menu),
        vec![
            ("remote::box".to_string(), "box: ↯ Action required".to_string(), true),
            ("remote::gdrive".to_string(), "gdrive: Up to date.".to_string(), true),
            ("remote::nas".to_string(), "[L] nas".to_string(), false),
        ]
    );
    assert!(matches!(menu[3], MenuEntry::Separator));
    match (&menu[4], &menu[5]) {
        (MenuEntry::Command { id: a, label: la }, MenuEntry::Command { id: b, label: lb }) => {
            assert_eq!((a.as_str(), la.as_str()), ("open_app", "Open App"));
            assert_eq!((b.as_str(), lb.as_str()), ("quit", "Quit"));
        }
        _ => panic!("expected the two commands"),
    }
}

#[test]
fn empty_tray_has_only_commands() {
    let t = TrayManager::new();
    let menu = t.build_menu(&Vec::new());
    assert_eq!(menu.len(), 3);
    assert!(matches!(menu[0], MenuEntry::Separator));
}

#[test]
fn later_duplicate_wins_in_set_remotes() {
    let mut t = TrayManager::new();
    t.set_remotes(vec![
        ("a".to_string(), SyncStatus::UpToDate),
        ("a".to_string(), SyncStatus::Syncing),
    ]);
    let lines = remote_lines(&t.build_menu(&Vec::new()));
    assert_eq!(lines, vec![("remote::a".to_string(), "a: Syncing...".to_string(), true)]);
}

#[test]
fn set_remotes_replaces_the_previous_list() {
    let mut t = TrayManager::new();
    t.set_remotes(vec![("old".to_string(), SyncStatus::UpToDate)]);
    t.set_remotes(vec![("new".to_string(), SyncStatus::UpToDate)]);
    let lines = remote_lines(&t.build_menu(&Vec::new()));
    assert_eq!(lines.len(), 1);
    assert_eq!(lines[0].0, "remote::new");
}

#[test]
fn set_status_updates_only_known_remotes() {
    let mut t = TrayManager::new();
    t.set_remotes(vec![("gdrive".to_string(), SyncStatus::UpToDate)]);
    assert!(t.set_status("gdrive", SyncStatus::Syncing));
    assert!(!t.set_status("unknown", SyncStatus::Syncing));
    let lines = remote_lines(&t.build_menu(&Vec::new()));
    assert_eq!(lines, vec![("remote::gdrive".to_string(), "gdrive: Syncing...".to_string(), true)]);
}

#[test]
fn menu_events_route_to_commands() {
    assert!(matches!(TrayManager::handle_menu_event("remote::gdrive"), MenuCommand::Remote(n) if n == "gdrive"));
    assert!(matches!(TrayManager::handle_menu_event("remote::"), MenuCommand::Remote(n) if n.is_empty()));
    assert!(matches!(TrayManager::handle_menu_event("open_app"), MenuCommand::OpenApp));
    assert!(matches!(TrayManager::handle_menu_event("quit"), MenuCommand::Quit));
    assert!(matches!(TrayManager::handle_menu_event("other"), MenuCommand::Ignore));
}

#[test]
fn menu_item_id_routes_back_to_its_remote() {
    let mut t = TrayManager::new();
    t.set_remotes(vec![("my remote".to_string(), SyncStatus::UpToDate)]);
    let lines = remote_lines(&t.build_menu(&Vec::new()));
    assert!(matches!(TrayManager::handle_menu_event(&lines[0].0), MenuCommand::Remote(n) if n == "my remote"));
}

#[test]
fn locked_remotes_are_not_synced_on_click() {
    let configs = vec![locked("a", true), locked("b", false)];
    assert!(!TrayManager::handle_remote_click(&configs, "a"));
    assert!(TrayManager::handle_remote_click(&configs, "b"));
    assert!(TrayManager::handle_remote_click(&configs, "c"));
}
