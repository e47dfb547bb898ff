use ncspot_controller::config::Config;
use ncspot_controller::watcher::{watch_wakeup, FsEventKind, WatcherError};

#[test]
fn create_event_naming_the_socket_wakes() {
    let names = vec![Some("ncspot.sock".to_string())];
    assert!(watch_wakeup(&FsEventKind::Create, &names, "ncspot.sock"));
}

#[test]
fn modify_and_any_events_wake_too() {
    let names = vec![None, Some("ncspot.sock".to_string())];
    assert!(watch_wakeup(&FsEventKind::Modify, &names, "ncspot.sock"));
    assert!(watch_wakeup(&FsEventKind::Any, &names, "ncspot.sock"));
}

#[test]
fn other_event_kinds_never_wake() {
    let names = vec![Some("ncspot.sock".to_string())];
    assert!(!watch_wakeup(&FsEventKind::Other, &names, "ncspot.sock"));
}

#[test]
fn unrelated_files_do_not_wake() {
    let names = vec![Some("other.file".to_string()), None];
    assert!(!watch_wakeup(&FsEventKind::Create, &names, "ncspot.sock"));
    assert!(!watch_wakeup(&FsEventKind::Create, &Vec::new(), "ncspot.sock"));
}

#[test]
fn watcher_errors_describe_themselves() {
    assert_eq!(
        WatcherError::ChannelClosed.describe(),
        "the watcher channel closed before the socket appeared"
    );
    assert_eq!(
        WatcherError::MissingParent.describe(),
        "the socket path has no watchable parent directory"
    );
}

#[test]
fn configs_hold_their_hook_script() {
    assert_eq!(Config::unconfigured().hook_script, None);
    let c = Config::with_hook_script("~/bin/hook.sh".to_string());
    assert_eq!(c.hook_script.as_deref(), Some("~/bin/hook.sh"));
}
