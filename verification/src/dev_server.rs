//! The development-server orchestrator: owns the status record, the platform
//! selection, the process handles and the watcher settings, and drives the
//! per-platform build strategies as a step machine. Every decision — which
//! command to issue next, how the status record changes, which processes must
//! die — is made and proved here; the surrounding binary only executes the
//! returned actions and reports their outcomes back as events.

use vstd::prelude::*;
use crate::commands::{
    desktop_run_command, launch_command, local_url, script_command, spec_desktop_command,
    spec_launch_command, spec_local_url, spec_script_command, spec_web_port, CommandLine,
};
use crate::config::{spec_default_config, ProjectConfig};
use crate::errors::{spec_error_message, BuildError};
use crate::platform::Platform;
use crate::process::{
    remove_platform_windows, spec_all_tokens, spec_removed_tokens, spec_retained,
    take_all_windows, SimulatorWindow,
};
use crate::status::{
    spec_begin_build, spec_end_build, spec_idle_status, spec_update_progress, BuildStatus,
    StatusView,
};
use crate::watch_filter::{change_accepted, notification_accepted};

verus! {

/// Where the orchestrator stands in the current rebuild cycle. A platform is
/// fixed when the cycle starts and kept here until the cycle ends.
#[derive(Clone, Copy, Debug, PartialEq, Eq, Structural)]
pub enum BuildPhase {
    /// No build in flight.
    Idle,
    /// The platform's build script has been issued; its exit is awaited.
    AwaitingScript { platform: Platform },
    /// The platform's launcher has been issued; the spawn result is awaited.
    AwaitingLaunch { platform: Platform },
}

/// What the surrounding binary must do next. Running a script or launching a
/// process produces a [`BuildEvent`] to feed back; opening the browser is
/// fire-and-forget (its failure is never fatal).
pub enum ServerAction {
    /// Run this command to completion and report its exit.
    RunScript { command: CommandLine },
    /// Spawn this command and report the token of the live process, or the
    /// failure to spawn it.
    LaunchProcess { command: CommandLine },
    /// Best-effort: point the default browser at this address.
    OpenBrowser { url: String },
}

/// The outcome of the last issued action, reported back to the orchestrator.
pub enum BuildEvent {
    /// The build script ran and exited with this code.
    ScriptDone { exit_code: i32 },
    /// The build script could not be started at all.
    ScriptStartFailed { os_error: String },
    /// The launcher was spawned; the token names the live process.
    Spawned { token: u64 },
    /// The launcher could not be spawned.
    SpawnFailed { os_error: String },
}

/// The progress shown right after a rebuild is dispatched.
pub open spec fn spec_start_progress(p: Platform) -> (u32, u32) {
    match p {
        Platform::Desktop => (1u32, 4u32),
        _ => (0u32, 5u32),
    }
}

/// The message shown right after a rebuild is dispatched.
pub open spec fn spec_start_message(p: Platform) -> Seq<char> {
    match p {
        Platform::Desktop => "Building application..."@,
        Platform::IOS => "Building for iOS..."@,
        Platform::Android => "Building for Android..."@,
        Platform::Web => "Building for web..."@,
    }
}

/// The progress shown when the build script has succeeded and the launcher is
/// about to start.
pub open spec fn spec_launch_progress(p: Platform) -> (u32, u32) {
    match p {
        Platform::Desktop => (2u32, 4u32),
        _ => (2u32, 5u32),
    }
}

/// The message shown when the launcher is about to start.
pub open spec fn spec_launch_message(p: Platform) -> Seq<char> {
    match p {
        Platform::Desktop => "Starting application..."@,
        Platform::IOS => "Starting iOS simulator..."@,
        Platform::Android => "Starting Android emulator..."@,
        Platform::Web => "Starting web server..."@,
    }
}

/// The final progress of a successful build.
pub open spec fn spec_ready_progress(p: Platform) -> (u32, u32) {
    match p {
        Platform::Desktop => (4u32, 4u32),
        _ => (5u32, 5u32),
    }
}

/// The final message of a successful build.
pub open spec fn spec_ready_message(p: Platform) -> Seq<char> {
    match p {
        Platform::Desktop => "Desktop application ready!"@,
        Platform::IOS => "iOS simulator ready!"@,
        Platform::Android => "Android emulator ready!"@,
        Platform::Web => "Web server ready!"@,
    }
}

/// The development server: platform selection, status record, process
/// handles, watcher settings and the in-flight build phase.
pub struct DevServer {
    pub target_platform: Platform,
    pub status: BuildStatus,
    pub simulator_windows: Vec<SimulatorWindow>,
    pub ignore_paths: Vec<String>,
    pub config: ProjectConfig,
    pub phase: BuildPhase,
    pub watch_root: Option<String>,
}

/// The fields a rebuild never touches.
pub open spec fn spec_settings_unchanged(pre: DevServer, post: DevServer) -> bool {
    &&& post.target_platform == pre.target_platform
    &&& post.ignore_paths == pre.ignore_paths
    &&& post.config == pre.config
    &&& post.watch_root == pre.watch_root
}

/// Everything `rebuild` promises: the status record goes in-flight with the
/// platform's starting milestone, the phase records what is awaited, desktop
/// rebuilds first clear their own stale handles, and the returned action is
/// the platform's first command.
pub open spec fn spec_rebuild_post(
    pre: DevServer,
    post: DevServer,
    kills: Seq<u64>,
    action: ServerAction,
) -> bool {
    let p = pre.target_platform;
    &&& spec_settings_unchanged(pre, post)
    &&& post.status@ == spec_update_progress(
        spec_begin_build(pre.status@),
        spec_start_progress(p).0,
        spec_start_progress(p).1,
        spec_start_message(p),
    )
    &&& (p == Platform::Desktop ==> {
        &&& post.simulator_windows@ == spec_retained(pre.simulator_windows@, Platform::Desktop)
        &&& kills == spec_removed_tokens(pre.simulator_windows@, Platform::Desktop)
        &&& post.phase == (BuildPhase::AwaitingLaunch { platform: Platform::Desktop })
        &&& action matches ServerAction::LaunchProcess { command } && command@
            == spec_desktop_command(pre.config@)
    })
    &&& (p != Platform::Desktop ==> {
        &&& post.simulator_windows@ == pre.simulator_windows@
        &&& kills == Seq::<u64>::empty()
        &&& post.phase == (BuildPhase::AwaitingScript { platform: p })
        &&& action matches ServerAction::RunScript { command } && command@ == spec_script_command(
            p,
        )
    })
}

impl DevServer {
    /// A fresh server: desktop selected, idle status, no handles, the default
    /// configuration, and the build-output and version-control directories
    /// ignored by the watcher filter.
    pub fn new() -> (r: DevServer)
        ensures
            r.target_platform == Platform::Desktop,
            r.status@ == spec_idle_status(),
            r.simulator_windows@ == Seq::<SimulatorWindow>::empty(),
            r.ignore_paths.deep_view() == seq!["target"@, ".git"@],
            r.config@ == spec_default_config(),
            r.phase == BuildPhase::Idle,
            r.watch_root is None,
    {
        let mut ignore_paths: Vec<String> = Vec::new();
        ignore_paths.push("target".to_owned());
        ignore_paths.push(".git".to_owned());
        proof {
            assert(ignore_paths.deep_view() =~= seq!["target"@, ".git"@]);
        }
        DevServer {
            target_platform: Platform::Desktop,
            status: BuildStatus::idle(),
            simulator_windows: Vec::new(),
            ignore_paths,
            config: ProjectConfig::default(),
            phase: BuildPhase::Idle,
            watch_root: None,
        }
    }

    /// Installs the project configuration (parsed outside the library).
    pub fn set_config(&mut self, config: ProjectConfig)
        ensures
            final(self).config == config,
            final(self).target_platform == old(self).target_platform,
            final(self).status == old(self).status,
            final(self).simulator_windows == old(self).simulator_windows,
            final(self).ignore_paths == old(self).ignore_paths,
            final(self).phase == old(self).phase,
            final(self).watch_root == old(self).watch_root,
    {
        self.config = config;
    }

    /// Records the root the filesystem watcher is armed on. The watch itself
    /// is installed by the surrounding binary; installation failure is a
    /// startup error reported there.
    pub fn watch(&mut self, root: &str)
        ensures
            final(self).watch_root is Some,
            final(self).watch_root->0@ == root@,
            final(self).target_platform == old(self).target_platform,
            final(self).status == old(self).status,
            final(self).simulator_windows == old(self).simulator_windows,
            final(self).ignore_paths == old(self).ignore_paths,
            final(self).config == old(self).config,
            final(self).phase == old(self).phase,
    {
        self.watch_root = Some(root.to_owned());
    }

    /// Tears the watcher down: the server no longer watches anything.
    pub fn cleanup(&mut self)
        ensures
            final(self).watch_root is None,
            final(self).target_platform == old(self).target_platform,
            final(self).status == old(self).status,
            final(self).simulator_windows == old(self).simulator_windows,
            final(self).ignore_paths == old(self).ignore_paths,
            final(self).config == old(self).config,
            final(self).phase == old(self).phase,
    {
        self.watch_root = None;
    }

    /// Handles one change notification from the watcher: when at least one of
    /// its paths contains no ignore fragment, the status record is flagged
    /// in-flight; a notification whose every path is ignored changes nothing.
    /// Nothing else — in particular not the error field — is ever touched
    /// from here.
    pub fn note_change(&mut self, paths: &Vec<String>)
        ensures
            final(self).status@ == (StatusView {
                in_progress: old(self).status@.in_progress || change_accepted(
                    paths.deep_view(),
                    old(self).ignore_paths.deep_view(),
                ),
                ..old(self).status@
            }),
            final(self).target_platform == old(self).target_platform,
            final(self).simulator_windows == old(self).simulator_windows,
            final(self).ignore_paths == old(self).ignore_paths,
            final(self).config == old(self).config,
            final(self).phase == old(self).phase,
            final(self).watch_root == old(self).watch_root,
    {
        if notification_accepted(paths, &self.ignore_paths) {
            self.status.in_progress = true;
        }
    }

    /// Whether any platform has been set up yet: true once a first rebuild
    /// has put a message into the status record. The control loop only
    /// honours rebuild and restart commands after this.
    pub fn is_platform_selected(&self) -> (r: bool)
        ensures
            r == (self.status@.message is Some),
    {
        self.status.message.is_some()
    }

    /// A snapshot copy of the status record, for the presentation layer.
    pub fn get_status(&self) -> (r: BuildStatus)
        ensures
            r@ == self.status@,
    {
        self.status.snapshot()
    }

    /// Records a progress milestone in the status record.
    pub fn update_progress(&mut self, current: u32, total: u32, message: &str)
        ensures
            final(self).status@ == spec_update_progress(old(self).status@, current, total, message@),
            final(self).target_platform == old(self).target_platform,
            final(self).simulator_windows == old(self).simulator_windows,
            final(self).ignore_paths == old(self).ignore_paths,
            final(self).config == old(self).config,
            final(self).phase == old(self).phase,
            final(self).watch_root == old(self).watch_root,
    {
        self.status.update_progress(current, total, message);
    }

    /// Removes and returns for killing every handle tagged with `platform`;
    /// handles of all other platforms are untouched, in their original order.
    pub fn cleanup_platform(&mut self, platform: Platform) -> (kills: Vec<u64>)
        ensures
            final(self).simulator_windows@ == spec_retained(
                old(self).simulator_windows@,
                platform,
            ),
            kills@ == spec_removed_tokens(old(self).simulator_windows@, platform),
            final(self).target_platform == old(self).target_platform,
            final(self).status == old(self).status,
            final(self).ignore_paths == old(self).ignore_paths,
            final(self).config == old(self).config,
            final(self).phase == old(self).phase,
            final(self).watch_root == old(self).watch_root,
    {
        remove_platform_windows(&mut self.simulator_windows, platform)
    }

    /// Starts a rebuild of the selected platform: the status record goes
    /// in-flight with the platform's starting milestone, and the platform's
    /// first command is returned for execution. A desktop rebuild first
    /// removes the desktop handles of the previous run; their tokens are
    /// returned for killing.
    pub fn rebuild(&mut self) -> (r: (Vec<u64>, ServerAction))
        ensures
            spec_rebuild_post(*old(self), *final(self), r.0@, r.1),
    {
        self.status.begin_build();
        match self.target_platform {
            Platform::Desktop => {
                self.status.update_progress(0, 4, "Initializing desktop build...");
                let kills = self.cleanup_platform(Platform::Desktop);
                self.status.update_progress(1, 4, "Building application...");
                self.phase = BuildPhase::AwaitingLaunch { platform: Platform::Desktop };
                let command = desktop_run_command(&self.config);
                (kills, ServerAction::LaunchProcess { command })
            },
            Platform::IOS => {
                self.status.update_progress(0, 5, "Building for iOS...");
                self.phase = BuildPhase::AwaitingScript { platform: Platform::IOS };
                let command = script_command(Platform::IOS);
                (Vec::new(), ServerAction::RunScript { command })
            },
            Platform::Android => {
                self.status.update_progress(0, 5, "Building for Android...");
                self.phase = BuildPhase::AwaitingScript { platform: Platform::Android };
                let command = script_command(Platform::Android);
                (Vec::new(), ServerAction::RunScript { command })
            },
            Platform::Web => {
                self.status.update_progress(0, 5, "Building for web...");
                self.phase = BuildPhase::AwaitingScript { platform: Platform::Web };
                let command = script_command(Platform::Web);
                (Vec::new(), ServerAction::RunScript { command })
            },
        }
    }

    /// Selects a platform and unconditionally rebuilds it.
    pub fn set_platform(&mut self, platform: Platform) -> (r: (Vec<u64>, ServerAction))
        ensures
            spec_rebuild_post(
                (DevServer { target_platform: platform, ..*old(self) }),
                *final(self),
                r.0@,
                r.1,
            ),
    {
        self.target_platform = platform;
        self.rebuild()
    }

    /// Advances the in-flight build with the outcome of the last issued
    /// action, at time `now`.
    ///
    /// A successful script is followed by the platform's launcher; a script
    /// that exits nonzero or cannot start ends the build with the matching
    /// error and spawns nothing. A successful launch attaches the new process
    /// handle and ends the build successfully — for the web platform the
    /// browser is then pointed at the local server, best-effort. A failed
    /// launch ends the build with the operating-system error. An event that
    /// does not belong to the current phase changes nothing.
    pub fn build_event(&mut self, event: BuildEvent, now: u64) -> (action: Option<ServerAction>)
        ensures
            old(self).phase == BuildPhase::Idle ==> *final(self) == *old(self) && action is None,
            (forall|p: Platform|
                old(self).phase == (BuildPhase::AwaitingScript { platform: p }) ==> {
                    &&& (event matches BuildEvent::ScriptDone { exit_code } ==> (exit_code == 0
                        ==> {
                        &&& final(self).status@ == spec_update_progress(
                            old(self).status@,
                            spec_launch_progress(p).0,
                            spec_launch_progress(p).1,
                            spec_launch_message(p),
                        )
                        &&& final(self).phase == (BuildPhase::AwaitingLaunch { platform: p })
                        &&& final(self).simulator_windows == old(self).simulator_windows
                        &&& action matches Some(ServerAction::LaunchProcess { command })
                            && command@ == spec_launch_command(p, old(self).config@)
                    }) && (exit_code != 0 ==> {
                        &&& final(self).status@ == spec_end_build(
                            old(self).status@,
                            Some(
                                spec_error_message(
                                    (BuildError::ToolFailed { platform: p, exit_code }),
                                ),
                            ),
                            now,
                        )
                        &&& final(self).phase == BuildPhase::Idle
                        &&& final(self).simulator_windows == old(self).simulator_windows
                        &&& action is None
                    }))
                    &&& (event matches BuildEvent::ScriptStartFailed { .. } ==> {
                        &&& final(self).status@ == spec_end_build(
                            old(self).status@,
                            Some(spec_error_message(BuildError::ScriptNotFound)),
                            now,
                        )
                        &&& final(self).phase == BuildPhase::Idle
                        &&& final(self).simulator_windows == old(self).simulator_windows
                        &&& action is None
                    })
                    &&& ((event matches BuildEvent::Spawned { .. } || event matches
                        BuildEvent::SpawnFailed { .. }) ==> *final(self) == *old(self)
                        && action is None)
                }),
            (forall|p: Platform|
                old(self).phase == (BuildPhase::AwaitingLaunch { platform: p }) ==> {
                    &&& (event matches BuildEvent::Spawned { token } ==> {
                        &&& final(self).simulator_windows@ == old(self).simulator_windows@.push(
                            (SimulatorWindow { platform: p, process: Some(token) }),
                        )
                        &&& final(self).status@ == spec_end_build(
                            spec_update_progress(
                                old(self).status@,
                                spec_ready_progress(p).0,
                                spec_ready_progress(p).1,
                                spec_ready_message(p),
                            ),
                            None,
                            now,
                        )
                        &&& final(self).phase == BuildPhase::Idle
                        &&& (p == Platform::Web ==> {
                            &&& action matches Some(ServerAction::OpenBrowser { url }) && url@
                                == spec_local_url(spec_web_port(old(self).config@))
                        })
                        &&& (p != Platform::Web ==> action is None)
                    })
                    &&& (event matches BuildEvent::SpawnFailed { os_error } ==> {
                        &&& final(self).status@ == spec_end_build(
                            old(self).status@,
                            Some(
                                spec_error_message(
                                    (BuildError::SpawnFailed { os_error: os_error }),
                                ),
                            ),
                            now,
                        )
                        &&& final(self).phase == BuildPhase::Idle
                        &&& final(self).simulator_windows == old(self).simulator_windows
                        &&& action is None
                    })
                    &&& ((event matches BuildEvent::ScriptDone { .. } || event matches
                        BuildEvent::ScriptStartFailed { .. }) ==> *final(self) == *old(self)
                        && action is None)
                }),
            final(self).target_platform == old(self).target_platform,
            final(self).ignore_paths == old(self).ignore_paths,
            final(self).config == old(self).config,
            final(self).watch_root == old(self).watch_root,
    {
        match self.phase {
            BuildPhase::Idle => None,
            BuildPhase::AwaitingScript { platform } => {
                match event {
                    BuildEvent::ScriptDone { exit_code } => {
                        if exit_code == 0 {
                            let (c, t) = match platform {
                                Platform::Desktop => (2u32, 4u32),
                                _ => (2u32, 5u32),
                            };
                            let message: &str = match platform {
                                Platform::Desktop => "Starting application...",
                                Platform::IOS => "Starting iOS simulator...",
                                Platform::Android => "Starting Android emulator...",
                                Platform::Web => "Starting web server...",
                            };
                            self.status.update_progress(c, t, message);
                            self.phase = BuildPhase::AwaitingLaunch { platform };
                            let command = launch_command(platform, &self.config);
                            Some(ServerAction::LaunchProcess { command })
                        } else {
                            let err = BuildError::ToolFailed { platform, exit_code };
                            let message = err.message();
                            self.status.end_build(Some(message), now);
                            self.phase = BuildPhase::Idle;
                            None
                        }
                    },
                    BuildEvent::ScriptStartFailed { os_error: _ } => {
                        let err = BuildError::ScriptNotFound;
                        let message = err.message();
                        self.status.end_build(Some(message), now);
                        self.phase = BuildPhase::Idle;
                        None
                    },
                    _ => None,
                }
            },
            BuildPhase::AwaitingLaunch { platform } => {
                match event {
                    BuildEvent::Spawned { token } => {
                        let mut window = SimulatorWindow::new(platform);
                        window.set_process(token);
                        self.simulator_windows.push(window);
                        let (c, t) = match platform {
                            Platform::Desktop => (4u32, 4u32),
                            _ => (5u32, 5u32),
                        };
                        let message: &str = match platform {
                            Platform::Desktop => "Desktop application ready!",
                            Platform::IOS => "iOS simulator ready!",
                            Platform::Android => "Android emulator ready!",
                            Platform::Web => "Web server ready!",
                        };
                        self.status.update_progress(c, t, message);
                        self.status.end_build(None, now);
                        self.phase = BuildPhase::Idle;
                        if let Platform::Web = platform {
                            let port = match self.config.web_config.port {
                                Some(p) => p,
                                None => 8080,
                            };
                            let url = local_url(port);
                            Some(ServerAction::OpenBrowser { url })
                        } else {
                            None
                        }
                    },
                    BuildEvent::SpawnFailed { os_error } => {
                        let err = BuildError::SpawnFailed { os_error };
                        let message = err.message();
                        self.status.end_build(Some(message), now);
                        self.phase = BuildPhase::Idle;
                        None
                    },
                    _ => None,
                }
            },
        }
    }

    /// Restarts the server: every live process token is handed back for
    /// killing, the handle collection is emptied, the watch stays armed on
    /// the original root, and a fresh rebuild of the selected platform is
    /// dispatched. No handle survives into the new cycle: the fresh process
    /// is only attached when the new build's launch succeeds.
    pub fn restart(&mut self) -> (r: (Vec<u64>, ServerAction))
        ensures
            r.0@ == spec_all_tokens(old(self).simulator_windows@),
            final(self).simulator_windows@ == Seq::<SimulatorWindow>::empty(),
            final(self).status@ == spec_update_progress(
                spec_begin_build(old(self).status@),
                spec_start_progress(old(self).target_platform).0,
                spec_start_progress(old(self).target_platform).1,
                spec_start_message(old(self).target_platform),
            ),
            old(self).target_platform == Platform::Desktop ==> {
                &&& final(self).phase == (BuildPhase::AwaitingLaunch {
                    platform: Platform::Desktop,
                })
                &&& r.1 matches ServerAction::LaunchProcess { command } && command@
                    == spec_desktop_command(old(self).config@)
            },
            old(self).target_platform != Platform::Desktop ==> {
                &&& final(self).phase == (BuildPhase::AwaitingScript {
                    platform: old(self).target_platform,
                })
                &&& r.1 matches ServerAction::RunScript { command } && command@
                    == spec_script_command(old(self).target_platform)
            },
            final(self).target_platform == old(self).target_platform,
            final(self).ignore_paths == old(self).ignore_paths,
            final(self).config == old(self).config,
            final(self).watch_root == old(self).watch_root,
    {
        let mut kills = take_all_windows(&mut self.simulator_windows);
        let (mut more, action) = self.rebuild();
        proof {
            assert(spec_removed_tokens(Seq::<SimulatorWindow>::empty(), Platform::Desktop)
                =~= Seq::<u64>::empty());
            assert(spec_retained(Seq::<SimulatorWindow>::empty(), Platform::Desktop)
                =~= Seq::<SimulatorWindow>::empty());
            assert(kills@ + more@ =~= kills@);
        }
        kills.append(&mut more);
        (kills, action)
    }

    /// Shuts the server down: every live process token is handed back for a
    /// synchronous kill and the watcher is disarmed. No process may outlive
    /// the orchestrator.
    pub fn shutdown(&mut self) -> (kills: Vec<u64>)
        ensures
            kills@ == spec_all_tokens(old(self).simulator_windows@),
            final(self).simulator_windows@ == Seq::<SimulatorWindow>::empty(),
            final(self).watch_root is None,
            final(self).target_platform == old(self).target_platform,
            final(self).status == old(self).status,
            final(self).ignore_paths == old(self).ignore_paths,
            final(self).config == old(self).config,
            final(self).phase == old(self).phase,
    {
        let kills = take_all_windows(&mut self.simulator_windows);
        self.watch_root = None;
        kills
    }
}

} // verus!
