//! The failure taxonomy of the build strategies. Every build failure is
//! recoverable: it is turned into a message and stored in the status record,
//! and the server keeps running.

use vstd::prelude::*;
use crate::platform::{spec_platform_label, Platform};

verus! {

/// Why a build strategy failed. `ToolFailed` keeps the script's exit code;
/// `SpawnFailed` keeps the operating-system error text.
pub enum BuildError {
    /// The build script could not be started at all.
    ScriptNotFound,
    /// The build script ran and exited nonzero.
    ToolFailed { platform: Platform, exit_code: i32 },
    /// The built artifact (application, simulator, emulator or server)
    /// could not be spawned.
    SpawnFailed { os_error: String },
    /// The configuration record is unusable for this strategy.
    ConfigInvalid,
}

/// The message stored in the status record for each failure.
pub open spec fn spec_error_message(e: BuildError) -> Seq<char> {
    match e {
        BuildError::ScriptNotFound => "build script not found"@,
        BuildError::ToolFailed { platform, .. } => spec_platform_label(platform)
            + " build failed"@,
        BuildError::SpawnFailed { os_error } => os_error@,
        BuildError::ConfigInvalid => "invalid project configuration"@,
    }
}

impl BuildError {
    /// The message shown to the operator, e.g. `"Android build failed"` when
    /// the Android build script exits nonzero.
    pub fn message(&self) -> (r: String)
        ensures
            r@ == spec_error_message(*self),
    {
        match self {
            BuildError::ScriptNotFound => "build script not found".to_owned(),
            BuildError::ToolFailed { platform, .. } => {
                let label = platform.label();
                label.to_owned().concat(" build failed")
            },
            BuildError::SpawnFailed { os_error } => os_error.clone(),
            BuildError::ConfigInvalid => "invalid project configuration".to_owned(),
        }
    }
}

} // verus!
