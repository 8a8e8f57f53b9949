use rust_native::dev_server::DevServer;
use rust_native::watch_filter::{is_path_ignored, notification_accepted, str_contains_fragment};

fn strings(items: &[&str]) -> Vec<String> {
    items.iter().map(|s| s.to_string()).collect()
}

#[test]
fn fragment_containment_basics() {
    assert!(str_contains_fragment("project/target/debug/app", "target"));
    assert!(str_contains_fragment("project/.git/HEAD", ".git"));
    assert!(str_contains_fragment("target", "target"));
    assert!(!str_contains_fragment("project/src/main.rs", "target"));
    assert!(!str_contains_fragment("tar", "target"));
    assert!(str_contains_fragment("anything", ""));
    assert!(str_contains_fragment("", ""));
    assert!(!str_contains_fragment("", "x"));
}

#[test]
fn path_ignored_checks_every_fragment() {
    let ignores = strings(&["target", ".git"]);
    assert!(is_path_ignored(&"a/target/b".to_string(), &ignores));
    assert!(is_path_ignored(&"a/.git/b".to_string(), &ignores));
    assert!(!is_path_ignored(&"a/src/b.rs".to_string(), &ignores));
    assert!(!is_path_ignored(&"a/src/b.rs".to_string(), &Vec::new()));
}

#[test]
fn notification_needs_one_surviving_path() {
    let ignores = strings(&["target", ".git"]);
    assert!(notification_accepted(&strings(&["src/lib.rs"]), &ignores));
    assert!(notification_accepted(&strings(&["target/out", "src/lib.rs"]), &ignores));
    assert!(!notification_accepted(&strings(&["target/out", ".git/HEAD"]), &ignores));
    assert!(!notification_accepted(&strings(&[]), &ignores));
}

#[test]
fn fully_ignored_notification_never_sets_in_progress() {
    let mut server = DevServer::new();
    server.note_change(&strings(&["target/debug/app", ".git/index"]));
    assert!(!server.get_status().in_progress);
}

#[test]
fn notification_with_a_live_path_sets_in_progress() {
    let mut server = DevServer::new();
    server.note_change(&strings(&["target/debug/app", "src/main.rs"]));
    assert!(server.get_status().in_progress);
}

#[test]
fn note_change_never_touches_the_error() {
    let mut server = DevServer::new();
    server.status.end_build(Some("Web build failed".to_string()), 5);
    server.note_change(&strings(&["src/main.rs"]));
    let status = server.get_status();
    assert!(status.in_progress);
    assert_eq!(status.error.as_deref(), Some("Web build failed"));
}
