use rust_native::config::ProjectConfig;
use rust_native::dev_server::{BuildEvent, BuildPhase, DevServer, ServerAction};
use rust_native::platform::Platform;
use rust_native::process::SimulatorWindow;

fn attach_window(server: &mut DevServer, platform: Platform, token: u64) {
    let mut window = SimulatorWindow::new(platform);
    window.set_process(token);
    server.simulator_windows.push(window);
}

#[test]
fn new_server_starts_idle_on_desktop() {
    let server = DevServer::new();
    assert_eq!(server.target_platform, Platform::Desktop);
    let status = server.get_status();
    assert!(!status.in_progress);
    assert!(status.error.is_none());
    assert!(server.simulator_windows.is_empty());
    assert_eq!(server.ignore_paths, vec!["target", ".git"]);
    assert!(server.watch_root.is_none());
}

#[test]
fn default_config_targets_desktop_with_no_build_command() {
    let config = ProjectConfig::default();
    assert_eq!(config.name, "rust-native-project");
    assert_eq!(config.target_platforms, vec![Platform::Desktop]);
    assert!(config.build_command.is_none());
    assert!(config.android_config.avd_name.is_none());
    assert!(config.web_config.port.is_none());
}

#[test]
fn desktop_rebuild_dispatches_the_fallback_run_command() {
    let mut server = DevServer::new();
    let (kills, action) = server.rebuild();
    assert!(kills.is_empty());
    let status = server.get_status();
    assert!(status.in_progress);
    assert!(status.error.is_none());
    assert_eq!(status.progress, Some((1, 4)));
    assert_eq!(status.message.as_deref(), Some("Building application..."));
    match action {
        ServerAction::LaunchProcess { command } => {
            assert_eq!(command.program, "cargo");
            assert_eq!(command.args, vec!["run", "--example", "todo_app"]);
        }
        _ => panic!("desktop rebuild must launch the run command"),
    }
    assert_eq!(
        server.phase,
        BuildPhase::AwaitingLaunch { platform: Platform::Desktop }
    );
}

#[test]
fn desktop_launch_success_attaches_the_handle() {
    let mut server = DevServer::new();
    let _ = server.rebuild();
    let action = server.build_event(BuildEvent::Spawned { token: 41 }, 99);
    assert!(action.is_none());
    let status = server.get_status();
    assert!(!status.in_progress);
    assert!(status.error.is_none());
    assert_eq!(status.last_build, Some(99));
    assert_eq!(status.progress, Some((4, 4)));
    assert_eq!(status.message.as_deref(), Some("Desktop application ready!"));
    assert_eq!(server.simulator_windows.len(), 1);
    assert_eq!(server.simulator_windows[0].platform, Platform::Desktop);
    assert_eq!(server.simulator_windows[0].process, Some(41));
    assert_eq!(server.phase, BuildPhase::Idle);
}

#[test]
fn ios_flow_runs_script_then_simulator() {
    let mut server = DevServer::new();
    let (_, action) = server.set_platform(Platform::IOS);
    match action {
        ServerAction::RunScript { command } => {
            assert_eq!(command.args, vec!["scripts/build-ios.sh", "todo_app"]);
        }
        _ => panic!("iOS rebuild must start with the build script"),
    }
    assert_eq!(server.get_status().message.as_deref(), Some("Building for iOS..."));
    let next = server.build_event(BuildEvent::ScriptDone { exit_code: 0 }, 1);
    match next {
        Some(ServerAction::LaunchProcess { command }) => {
            assert_eq!(command.program, "open");
            assert_eq!(command.args, vec!["-a", "Simulator"]);
        }
        _ => panic!("a successful script must be followed by the simulator launch"),
    }
    let done = server.build_event(BuildEvent::Spawned { token: 7 }, 2);
    assert!(done.is_none());
    let status = server.get_status();
    assert_eq!(status.message.as_deref(), Some("iOS simulator ready!"));
    assert!(status.error.is_none());
    assert_eq!(server.simulator_windows[0].platform, Platform::IOS);
}

#[test]
fn android_script_failure_reports_and_spawns_nothing() {
    let mut server = DevServer::new();
    let _ = server.set_platform(Platform::Android);
    let action = server.build_event(BuildEvent::ScriptDone { exit_code: 1 }, 50);
    assert!(action.is_none());
    let status = server.get_status();
    assert!(!status.in_progress);
    assert_eq!(status.error.as_deref(), Some("Android build failed"));
    assert_eq!(status.last_build, Some(50));
    assert!(server.simulator_windows.is_empty());
    assert_eq!(server.phase, BuildPhase::Idle);
}

#[test]
fn web_flow_defaults_to_port_8080_and_opens_browser() {
    let mut server = DevServer::new();
    assert!(server.config.web_config.port.is_none());
    let (_, action) = server.set_platform(Platform::Web);
    match action {
        ServerAction::RunScript { command } => {
            assert_eq!(command.args, vec!["scripts/build-web.sh"]);
        }
        _ => panic!("web rebuild must start with the build script"),
    }
    let next = server.build_event(BuildEvent::ScriptDone { exit_code: 0 }, 1);
    match next {
        Some(ServerAction::LaunchProcess { command }) => {
            assert_eq!(command.program, "python3");
            assert_eq!(command.args, vec!["-m", "http.server", "8080"]);
            assert_eq!(command.working_dir.as_deref(), Some("www"));
        }
        _ => panic!("a successful script must be followed by the file server"),
    }
    let opened = server.build_event(BuildEvent::Spawned { token: 3 }, 2);
    match opened {
        Some(ServerAction::OpenBrowser { url }) => {
            assert_eq!(url, "http://localhost:8080");
        }
        _ => panic!("a spawned web server must be followed by the browser"),
    }
    assert_eq!(server.get_status().message.as_deref(), Some("Web server ready!"));
}

#[test]
fn script_start_failure_reports_missing_script() {
    let mut server = DevServer::new();
    let _ = server.set_platform(Platform::Web);
    let action = server.build_event(
        BuildEvent::ScriptStartFailed { os_error: "No such file or directory".to_string() },
        9,
    );
    assert!(action.is_none());
    let status = server.get_status();
    assert_eq!(status.error.as_deref(), Some("build script not found"));
    assert!(!status.in_progress);
}

#[test]
fn launch_failure_reports_the_os_error() {
    let mut server = DevServer::new();
    let _ = server.rebuild();
    let action = server.build_event(
        BuildEvent::SpawnFailed { os_error: "permission denied".to_string() },
        12,
    );
    assert!(action.is_none());
    let status = server.get_status();
    assert_eq!(status.error.as_deref(), Some("permission denied"));
    assert!(server.simulator_windows.is_empty());
}

#[test]
fn events_outside_a_build_change_nothing() {
    let mut server = DevServer::new();
    let action = server.build_event(BuildEvent::Spawned { token: 1 }, 1);
    assert!(action.is_none());
    let status = server.get_status();
    assert!(!status.in_progress);
    assert!(status.last_build.is_none());
    assert!(server.simulator_windows.is_empty());
}

#[test]
fn cleanup_platform_removes_all_and_only_that_platform() {
    let mut server = DevServer::new();
    attach_window(&mut server, Platform::Desktop, 1);
    attach_window(&mut server, Platform::Android, 2);
    attach_window(&mut server, Platform::Desktop, 3);
    attach_window(&mut server, Platform::Web, 4);
    let kills = server.cleanup_platform(Platform::Desktop);
    assert_eq!(kills, vec![1, 3]);
    assert_eq!(server.simulator_windows.len(), 2);
    assert_eq!(server.simulator_windows[0].platform, Platform::Android);
    assert_eq!(server.simulator_windows[0].process, Some(2));
    assert_eq!(server.simulator_windows[1].platform, Platform::Web);
    assert_eq!(server.simulator_windows[1].process, Some(4));
}

#[test]
fn cleanup_platform_skips_empty_handles() {
    let mut server = DevServer::new();
    server.simulator_windows.push(SimulatorWindow::new(Platform::Desktop));
    attach_window(&mut server, Platform::Desktop, 8);
    let kills = server.cleanup_platform(Platform::Desktop);
    assert_eq!(kills, vec![8]);
    assert!(server.simulator_windows.is_empty());
}

#[test]
fn restart_kills_every_handle_before_the_new_build_spawns() {
    let mut server = DevServer::new();
    attach_window(&mut server, Platform::Desktop, 5);
    attach_window(&mut server, Platform::Web, 6);
    server.watch(".");
    let (kills, action) = server.restart();
    assert_eq!(kills, vec![5, 6]);
    assert!(server.simulator_windows.is_empty());
    assert!(matches!(action, ServerAction::LaunchProcess { .. }));
    assert!(server.get_status().in_progress);
    assert_eq!(server.watch_root.as_deref(), Some("."));
    let _ = server.build_event(BuildEvent::Spawned { token: 10 }, 1);
    assert_eq!(server.simulator_windows.len(), 1);
    assert_eq!(server.simulator_windows[0].process, Some(10));
}

#[test]
fn shutdown_returns_every_live_token_and_disarms_the_watch() {
    let mut server = DevServer::new();
    server.watch("project");
    attach_window(&mut server, Platform::Android, 21);
    server.simulator_windows.push(SimulatorWindow::new(Platform::Web));
    attach_window(&mut server, Platform::Desktop, 22);
    let kills = server.shutdown();
    assert_eq!(kills, vec![21, 22]);
    assert!(server.simulator_windows.is_empty());
    assert!(server.watch_root.is_none());
}

#[test]
fn set_platform_switches_and_rebuilds() {
    let mut server = DevServer::new();
    let (_, action) = server.set_platform(Platform::Android);
    assert_eq!(server.target_platform, Platform::Android);
    match action {
        ServerAction::RunScript { command } => {
            assert_eq!(command.args, vec!["scripts/build-android.sh", "todo_app"]);
        }
        _ => panic!("android rebuild must start with the build script"),
    }
    assert_eq!(server.get_status().message.as_deref(), Some("Building for Android..."));
}

#[test]
fn kill_process_is_idempotent() {
    let mut window = SimulatorWindow::new(Platform::Web);
    window.set_process(31);
    assert_eq!(window.kill_process(), Some(31));
    assert_eq!(window.kill_process(), None);
    assert!(window.process.is_none());
}
