//! The project configuration record, as the build strategies consume it. The
//! configuration file itself is parsed outside the library and handed in as
//! this plain value; when no file exists, the defaults below apply.

use vstd::prelude::*;
use crate::platform::Platform;

verus! {

/// iOS-specific settings.
pub struct IOSConfig {
    pub device_name: Option<String>,
    pub ios_version: Option<String>,
}

/// Android-specific settings. `avd_name` selects the emulator image.
pub struct AndroidConfig {
    pub avd_name: Option<String>,
    pub api_level: Option<u32>,
    pub abi: Option<String>,
}

/// Web-specific settings. `port` is where the static file server binds.
pub struct WebConfig {
    pub port: Option<u16>,
    pub browsers: Option<Vec<String>>,
}

/// Everything the build strategies read about the project.
pub struct ProjectConfig {
    pub name: String,
    pub target_platforms: Vec<Platform>,
    pub build_command: Option<String>,
    pub ios_config: IOSConfig,
    pub android_config: AndroidConfig,
    pub web_config: WebConfig,
}

/// Mathematical value of an [`AndroidConfig`].
pub struct AndroidConfigView {
    pub avd_name: Option<Seq<char>>,
    pub api_level: Option<u32>,
    pub abi: Option<Seq<char>>,
}

/// Mathematical value of an [`IOSConfig`].
pub struct IOSConfigView {
    pub device_name: Option<Seq<char>>,
    pub ios_version: Option<Seq<char>>,
}

/// Mathematical value of a [`WebConfig`].
pub struct WebConfigView {
    pub port: Option<u16>,
    pub browsers: Option<Seq<Seq<char>>>,
}

/// Mathematical value of a [`ProjectConfig`].
pub struct ConfigView {
    pub name: Seq<char>,
    pub target_platforms: Seq<Platform>,
    pub build_command: Option<Seq<char>>,
    pub ios_config: IOSConfigView,
    pub android_config: AndroidConfigView,
    pub web_config: WebConfigView,
}

impl View for IOSConfig {
    type V = IOSConfigView;

    open spec fn view(&self) -> IOSConfigView {
        IOSConfigView {
            device_name: match self.device_name {
                Some(d) => Some(d@),
                None => None,
            },
            ios_version: match self.ios_version {
                Some(v) => Some(v@),
                None => None,
            },
        }
    }
}

impl View for AndroidConfig {
    type V = AndroidConfigView;

    open spec fn view(&self) -> AndroidConfigView {
        AndroidConfigView {
            avd_name: match self.avd_name {
                Some(a) => Some(a@),
                None => None,
            },
            api_level: self.api_level,
            abi: match self.abi {
                Some(a) => Some(a@),
                None => None,
            },
        }
    }
}

impl View for WebConfig {
    type V = WebConfigView;

    open spec fn view(&self) -> WebConfigView {
        WebConfigView {
            port: self.port,
            browsers: match self.browsers {
                Some(b) => Some(b.deep_view()),
                None => None,
            },
        }
    }
}

impl View for ProjectConfig {
    type V = ConfigView;

    open spec fn view(&self) -> ConfigView {
        ConfigView {
            name: self.name@,
            target_platforms: self.target_platforms@,
            build_command: match self.build_command {
                Some(c) => Some(c@),
                None => None,
            },
            ios_config: self.ios_config@,
            android_config: self.android_config@,
            web_config: self.web_config@,
        }
    }
}

/// The configuration used when no configuration file is present: one desktop
/// target, no custom build command, every platform-specific setting at its
/// default.
pub open spec fn spec_default_config() -> ConfigView {
    ConfigView {
        name: "rust-native-project"@,
        target_platforms: seq![Platform::Desktop],
        build_command: None,
        ios_config: IOSConfigView { device_name: None, ios_version: None },
        android_config: AndroidConfigView { avd_name: None, api_level: None, abi: None },
        web_config: WebConfigView { port: None, browsers: None },
    }
}

impl Default for IOSConfig {
    /// No device or version pinned.
    fn default() -> (r: IOSConfig)
        ensures
            r@ == (IOSConfigView { device_name: None, ios_version: None }),
    {
        IOSConfig { device_name: None, ios_version: None }
    }
}

impl Default for AndroidConfig {
    /// No emulator image, API level or ABI pinned.
    fn default() -> (r: AndroidConfig)
        ensures
            r@ == (AndroidConfigView { avd_name: None, api_level: None, abi: None }),
    {
        AndroidConfig { avd_name: None, api_level: None, abi: None }
    }
}

impl Default for WebConfig {
    /// No port or browser list pinned.
    fn default() -> (r: WebConfig)
        ensures
            r@ == (WebConfigView { port: None, browsers: None }),
    {
        WebConfig { port: None, browsers: None }
    }
}

impl Default for ProjectConfig {
    /// The fallback configuration for a project without a configuration file:
    /// desktop only, no custom build command.
    fn default() -> (r: ProjectConfig)
        ensures
            r@ == spec_default_config(),
    {
        let mut target_platforms: Vec<Platform> = Vec::new();
        target_platforms.push(Platform::Desktop);
        proof {
            assert(target_platforms@ =~= seq![Platform::Desktop]);
        }
        ProjectConfig {
            name: "rust-native-project".to_owned(),
            target_platforms,
            build_command: None,
            ios_config: IOSConfig::default(),
            android_config: AndroidConfig::default(),
            web_config: WebConfig::default(),
        }
    }
}

} // verus!
