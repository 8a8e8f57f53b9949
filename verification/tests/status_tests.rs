use rust_native::status::BuildStatus;

#[test]
fn idle_status_is_all_defaults() {
    let s = BuildStatus::idle();
    assert!(!s.in_progress);
    assert!(s.last_build.is_none());
    assert!(s.error.is_none());
    assert!(s.progress.is_none());
    assert!(s.message.is_none());
}

#[test]
fn in_progress_is_true_strictly_between_begin_and_end() {
    let mut s = BuildStatus::idle();
    assert!(!s.in_progress);
    s.begin_build();
    assert!(s.in_progress);
    s.end_build(None, 10);
    assert!(!s.in_progress);
    s.begin_build();
    assert!(s.in_progress);
    s.end_build(Some("boom".to_string()), 11);
    assert!(!s.in_progress);
}

#[test]
fn begin_build_clears_stale_error() {
    let mut s = BuildStatus::idle();
    s.end_build(Some("stale".to_string()), 1);
    assert_eq!(s.error.as_deref(), Some("stale"));
    s.begin_build();
    assert!(s.error.is_none());
    assert!(s.in_progress);
}

#[test]
fn end_build_failure_sets_error_message() {
    let mut s = BuildStatus::idle();
    s.begin_build();
    s.end_build(Some("iOS build failed".to_string()), 42);
    assert!(!s.in_progress);
    assert_eq!(s.last_build, Some(42));
    assert_eq!(s.error.as_deref(), Some("iOS build failed"));
}

#[test]
fn end_build_success_clears_even_a_prior_error() {
    let mut s = BuildStatus::idle();
    s.begin_build();
    s.end_build(Some("first failure".to_string()), 1);
    assert_eq!(s.error.as_deref(), Some("first failure"));
    s.begin_build();
    s.end_build(None, 2);
    assert!(s.error.is_none());
    assert_eq!(s.last_build, Some(2));
}

#[test]
fn end_build_failure_overwrites_a_prior_error() {
    let mut s = BuildStatus::idle();
    s.end_build(Some("first".to_string()), 1);
    s.end_build(Some("second".to_string()), 2);
    assert_eq!(s.error.as_deref(), Some("second"));
    assert_eq!(s.last_build, Some(2));
}

#[test]
fn update_progress_touches_only_progress_and_message() {
    let mut s = BuildStatus::idle();
    s.begin_build();
    s.update_progress(2, 5, "Building for Android...");
    assert!(s.in_progress);
    assert!(s.error.is_none());
    assert_eq!(s.progress, Some((2, 5)));
    assert_eq!(s.message.as_deref(), Some("Building for Android..."));
}

#[test]
fn snapshot_copies_every_field() {
    let mut s = BuildStatus::idle();
    s.begin_build();
    s.update_progress(1, 4, "Building application...");
    let copy = s.snapshot();
    assert_eq!(copy.in_progress, s.in_progress);
    assert_eq!(copy.last_build, s.last_build);
    assert_eq!(copy.error, s.error);
    assert_eq!(copy.progress, s.progress);
    assert_eq!(copy.message, s.message);
}
