//! The process-boundary commands each build strategy issues: the build
//! scripts, the launchers, the static file server and the browser URL. A
//! command is described here as plain data; the surrounding binary is what
//! actually runs it.

use vstd::prelude::*;
use crate::config::{ConfigView, ProjectConfig};
use crate::platform::Platform;

verus! {

/// One external command: a program, its arguments, and an optional working
/// directory.
pub struct CommandLine {
    pub program: String,
    pub args: Vec<String>,
    pub working_dir: Option<String>,
}

/// Mathematical value of a [`CommandLine`].
pub struct CmdView {
    pub program: Seq<char>,
    pub args: Seq<Seq<char>>,
    pub working_dir: Option<Seq<char>>,
}

impl View for CommandLine {
    type V = CmdView;

    open spec fn view(&self) -> CmdView {
        CmdView {
            program: self.program@,
            args: self.args.deep_view(),
            working_dir: match self.working_dir {
                Some(d) => Some(d@),
                None => None,
            },
        }
    }
}

/// The character for one decimal digit.
pub open spec fn spec_digit_char(d: nat) -> char {
    if d == 0 {
        '0'
    } else if d == 1 {
        '1'
    } else if d == 2 {
        '2'
    } else if d == 3 {
        '3'
    } else if d == 4 {
        '4'
    } else if d == 5 {
        '5'
    } else if d == 6 {
        '6'
    } else if d == 7 {
        '7'
    } else if d == 8 {
        '8'
    } else {
        '9'
    }
}

/// The decimal notation of `n`, without leading zeros (a single `'0'` for 0).
pub open spec fn spec_decimal(n: nat) -> Seq<char>
    decreases n,
{
    if n < 10 {
        seq![spec_digit_char(n)]
    } else {
        spec_decimal(n / 10) + seq![spec_digit_char(n % 10)]
    }
}

/// Appends the decimal notation of `n` to `out`.
fn push_decimal(n: u16, out: &mut String)
    ensures
        final(out)@ == old(out)@ + spec_decimal(n as nat),
    decreases n,
{
    if n >= 10 {
        push_decimal(n / 10, out);
    }
    let d: u16 = n % 10;
    let ds: &str = if d == 0 {
        "0"
    } else if d == 1 {
        "1"
    } else if d == 2 {
        "2"
    } else if d == 3 {
        "3"
    } else if d == 4 {
        "4"
    } else if d == 5 {
        "5"
    } else if d == 6 {
        "6"
    } else if d == 7 {
        "7"
    } else if d == 8 {
        "8"
    } else {
        "9"
    };
    proof {
        reveal_strlit("0");
        reveal_strlit("1");
        reveal_strlit("2");
        reveal_strlit("3");
        reveal_strlit("4");
        reveal_strlit("5");
        reveal_strlit("6");
        reveal_strlit("7");
        reveal_strlit("8");
        reveal_strlit("9");
        assert(ds@ =~= seq![spec_digit_char((n % 10) as nat)]);
    }
    out.append(ds);
    proof {
        if n >= 10 {
            assert(out@ =~= old(out)@ + spec_decimal((n / 10) as nat) + seq![
                spec_digit_char((n % 10) as nat),
            ]);
            assert(out@ =~= old(out)@ + spec_decimal(n as nat));
        } else {
            assert(out@ =~= old(out)@ + spec_decimal(n as nat));
        }
    }
}

/// The decimal notation of `n` as a string, e.g. `8080` as `"8080"`.
pub fn format_u16(n: u16) -> (r: String)
    ensures
        r@ == spec_decimal(n as nat),
{
    let mut out = String::new();
    push_decimal(n, &mut out);
    proof {
        assert(out@ =~= spec_decimal(n as nat));
    }
    out
}

/// The address of the local static file server on the given port.
pub open spec fn spec_local_url(port: u16) -> Seq<char> {
    "http://localhost:"@ + spec_decimal(port as nat)
}

/// The URL the browser is pointed at, `http://localhost:<port>`.
pub fn local_url(port: u16) -> (r: String)
    ensures
        r@ == spec_local_url(port),
{
    let mut out = "http://localhost:".to_owned();
    push_decimal(port, &mut out);
    out
}

/// The command that builds and runs the desktop application: the project's
/// configured build command when one is set, otherwise the fallback run
/// invocation.
pub open spec fn spec_desktop_command(c: ConfigView) -> CmdView {
    match c.build_command {
        Some(cmd) => CmdView { program: "sh"@, args: seq!["-c"@, cmd], working_dir: None },
        None => CmdView {
            program: "cargo"@,
            args: seq!["run"@, "--example"@, "todo_app"@],
            working_dir: None,
        },
    }
}

/// The build-script invocation for a platform with a script phase.
pub open spec fn spec_script_command(p: Platform) -> CmdView
    recommends
        p != Platform::Desktop,
{
    match p {
        Platform::Desktop => CmdView {
            program: Seq::empty(),
            args: Seq::empty(),
            working_dir: None,
        },
        Platform::IOS => CmdView {
            program: "sh"@,
            args: seq!["scripts/build-ios.sh"@, "todo_app"@],
            working_dir: None,
        },
        Platform::Android => CmdView {
            program: "sh"@,
            args: seq!["scripts/build-android.sh"@, "todo_app"@],
            working_dir: None,
        },
        Platform::Web => CmdView {
            program: "sh"@,
            args: seq!["scripts/build-web.sh"@],
            working_dir: None,
        },
    }
}

/// The emulator image the Android strategy launches: the configured one, or
/// `Pixel_4`.
pub open spec fn spec_avd_name(c: ConfigView) -> Seq<char> {
    match c.android_config.avd_name {
        Some(a) => a,
        None => "Pixel_4"@,
    }
}

/// The port the web strategy binds: the configured one, or 8080.
pub open spec fn spec_web_port(c: ConfigView) -> u16 {
    match c.web_config.port {
        Some(p) => p,
        None => 8080u16,
    }
}

/// The process each strategy leaves running: the desktop application, the
/// iOS simulator, the Android emulator, or the web static file server.
pub open spec fn spec_launch_command(p: Platform, c: ConfigView) -> CmdView {
    match p {
        Platform::Desktop => spec_desktop_command(c),
        Platform::IOS => CmdView {
            program: "open"@,
            args: seq!["-a"@, "Simulator"@],
            working_dir: None,
        },
        Platform::Android => CmdView {
            program: "emulator"@,
            args: seq!["-avd"@, spec_avd_name(c)],
            working_dir: None,
        },
        Platform::Web => CmdView {
            program: "python3"@,
            args: seq!["-m"@, "http.server"@, spec_decimal(spec_web_port(c) as nat)],
            working_dir: Some("www"@),
        },
    }
}

/// Builds the desktop run command from the configuration.
pub fn desktop_run_command(config: &ProjectConfig) -> (r: CommandLine)
    ensures
        r@ == spec_desktop_command(config@),
{
    let mut args: Vec<String> = Vec::new();
    match &config.build_command {
        Some(cmd) => {
            args.push("-c".to_owned());
            args.push(cmd.clone());
            let r = CommandLine { program: "sh".to_owned(), args, working_dir: None };
            proof {
                assert(r@.args =~= spec_desktop_command(config@).args);
            }
            r
        },
        None => {
            args.push("run".to_owned());
            args.push("--example".to_owned());
            args.push("todo_app".to_owned());
            let r = CommandLine { program: "cargo".to_owned(), args, working_dir: None };
            proof {
                assert(r@.args =~= spec_desktop_command(config@).args);
            }
            r
        },
    }
}

/// Builds the build-script invocation for the given platform.
pub fn script_command(platform: Platform) -> (r: CommandLine)
    requires
        platform != Platform::Desktop,
    ensures
        r@ == spec_script_command(platform),
{
    let mut args: Vec<String> = Vec::new();
    match platform {
        Platform::Desktop => {
            let r = CommandLine { program: String::new(), args, working_dir: None };
            proof {
                assert(r@.args =~= spec_script_command(platform).args);
            }
            r
        },
        Platform::IOS => {
            args.push("scripts/build-ios.sh".to_owned());
            args.push("todo_app".to_owned());
            let r = CommandLine { program: "sh".to_owned(), args, working_dir: None };
            proof {
                assert(r@.args =~= spec_script_command(platform).args);
            }
            r
        },
        Platform::Android => {
            args.push("scripts/build-android.sh".to_owned());
            args.push("todo_app".to_owned());
            let r = CommandLine { program: "sh".to_owned(), args, working_dir: None };
            proof {
                assert(r@.args =~= spec_script_command(platform).args);
            }
            r
        },
        Platform::Web => {
            args.push("scripts/build-web.sh".to_owned());
            let r = CommandLine { program: "sh".to_owned(), args, working_dir: None };
            proof {
                assert(r@.args =~= spec_script_command(platform).args);
            }
            r
        },
    }
}

/// Builds the launcher command for the given platform: what keeps running
/// after a successful build.
pub fn launch_command(platform: Platform, config: &ProjectConfig) -> (r: CommandLine)
    ensures
        r@ == spec_launch_command(platform, config@),
{
    match platform {
        Platform::Desktop => desktop_run_command(config),
        Platform::IOS => {
            let mut args: Vec<String> = Vec::new();
            args.push("-a".to_owned());
            args.push("Simulator".to_owned());
            let r = CommandLine { program: "open".to_owned(), args, working_dir: None };
            proof {
                assert(r@.args =~= spec_launch_command(platform, config@).args);
            }
            r
        },
        Platform::Android => {
            let avd = match &config.android_config.avd_name {
                Some(a) => a.clone(),
                None => "Pixel_4".to_owned(),
            };
            let mut args: Vec<String> = Vec::new();
            args.push("-avd".to_owned());
            args.push(avd);
            let r = CommandLine { program: "emulator".to_owned(), args, working_dir: None };
            proof {
                assert(r@.args =~= spec_launch_command(platform, config@).args);
            }
            r
        },
        Platform::Web => {
            let port = match config.web_config.port {
                Some(p) => p,
                None => 8080,
            };
            let mut args: Vec<String> = Vec::new();
            args.push("-m".to_owned());
            args.push("http.server".to_owned());
            args.push(format_u16(port));
            let r = CommandLine {
                program: "python3".to_owned(),
                args,
                working_dir: Some("www".to_owned()),
            };
            proof {
                assert(r@.args =~= spec_launch_command(platform, config@).args);
            }
            r
        },
    }
}

} // verus!
