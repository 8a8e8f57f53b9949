//! The closed set of build targets the development server can drive.

use vstd::prelude::*;

verus! {

/// One of the four targets a rebuild can be dispatched to. The selection is
/// mutable orchestrator state; within a single rebuild cycle the platform is
/// fixed.
#[derive(Clone, Copy, Debug, PartialEq, Eq, Structural)]
pub enum Platform {
    Desktop,
    IOS,
    Android,
    Web,
}

/// The display name used in build-failure messages for each platform.
pub open spec fn spec_platform_label(p: Platform) -> Seq<char> {
    match p {
        Platform::Desktop => "Desktop"@,
        Platform::IOS => "iOS"@,
        Platform::Android => "Android"@,
        Platform::Web => "Web"@,
    }
}

impl Platform {
    /// The human-readable name of the platform, as it appears in messages.
    pub fn label(&self) -> (r: &'static str)
        ensures
            r@ == spec_platform_label(*self),
    {
        match self {
            Platform::Desktop => "Desktop",
            Platform::IOS => "iOS",
            Platform::Android => "Android",
            Platform::Web => "Web",
        }
    }
}

} // verus!
