use rust_native::errors::BuildError;
use rust_native::layout::Layout;
use rust_native::navigation::{Navigator, Route, RouteType, Transition};
use rust_native::platform::Platform;
use rust_native::store::Store;
use rust_native::style::TextAlign;

struct FadeTransition;

impl Transition for FadeTransition {
    fn begin(&self) {}
    fn end(&self) {}
}

#[test]
fn route_new_defaults_to_push() {
    let route = Route::new("home".to_string());
    assert_eq!(route.name, "home");
    assert_eq!(route.route_type, RouteType::Push);
    assert!(route.params.is_empty());
}

#[test]
fn navigator_push_and_pop_are_a_stack() {
    let mut nav = Navigator::new();
    nav.push(Route::new("home".to_string()));
    nav.push(Route::new("settings".to_string()));
    let top = nav.pop().expect("stack had two routes");
    assert_eq!(top.name, "settings");
    let next = nav.pop().expect("stack had one route");
    assert_eq!(next.name, "home");
    assert!(nav.pop().is_none());
}

#[test]
fn navigator_records_transitions_and_selection() {
    let mut nav = Navigator::new();
    assert!(nav.current_route.is_none());
    nav.register_transition(RouteType::Push, RouteType::Modal, FadeTransition);
    assert_eq!(nav.transitions, vec![(RouteType::Push, RouteType::Modal)]);
    nav.navigate(RouteType::Modal);
    assert_eq!(nav.current_route, Some(RouteType::Modal));
    nav.navigate(RouteType::Root);
    assert_eq!(nav.current_route, Some(RouteType::Root));
}

#[test]
fn store_dispatch_applies_the_mutation() {
    let mut store = Store::new(1i32);
    store.dispatch(|n: &i32| n + 1);
    assert_eq!(store.get_state(), 2);
    store.dispatch(|n: &i32| n * 10);
    assert_eq!(store.get_state(), 20);
}

#[test]
fn store_holds_cloneable_state() {
    let store = Store::new("counter".to_string());
    assert_eq!(store.get_state(), "counter");
}

#[test]
fn error_messages_per_variant() {
    assert_eq!(BuildError::ScriptNotFound.message(), "build script not found");
    assert_eq!(
        BuildError::ToolFailed { platform: Platform::IOS, exit_code: 1 }.message(),
        "iOS build failed"
    );
    assert_eq!(
        BuildError::ToolFailed { platform: Platform::Web, exit_code: 2 }.message(),
        "Web build failed"
    );
    assert_eq!(
        BuildError::SpawnFailed { os_error: "no such device".to_string() }.message(),
        "no such device"
    );
    assert_eq!(BuildError::ConfigInvalid.message(), "invalid project configuration");
}

#[test]
fn layout_and_text_align_defaults() {
    assert_eq!(Layout::default(), Layout::Column);
    assert!(matches!(TextAlign::default(), TextAlign::Left));
}
