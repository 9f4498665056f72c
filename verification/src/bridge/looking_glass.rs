//! Looking Glass client: launch arguments, launch decisions and the handle
//! of a started client.

use vstd::prelude::*;

use crate::error::{Error, ErrorCategory};

verus! {

/// Env var that makes `launch` hand back a mock handle without spawning.
pub const NOOP_ENV: &'static str = "NEON_TEST_LG_NOOP";

/// Default kvmfr device path.
pub const DEFAULT_DEVICE_PATH: &'static str = "/dev/kvmfr0";

/// Name of the Looking Glass client binary on `PATH`.
pub const CLIENT_BINARY_NAME: &'static str = "looking-glass-client";

/// Launch arguments and tunables. The four flags are independent.
#[derive(Debug, Clone)]
pub struct LookingGlassSpec {
    /// Path to the kvmfr character device.
    pub device_path: String,
    /// Start fullscreen.
    pub fullscreen: bool,
    /// Grab the keyboard on focus.
    pub cursor_grab: bool,
    /// Allow microphone/audio passthrough.
    pub audio: bool,
    /// HDR passthrough (off by default).
    pub hdr_passthrough: bool,
}

/// The default tunables: `/dev/kvmfr0`, fullscreen, cursor grab and audio
/// on, HDR passthrough off.
pub open spec fn default_spec_fields(s: LookingGlassSpec) -> bool {
    &&& s.device_path@ == DEFAULT_DEVICE_PATH@
    &&& s.fullscreen
    &&& s.cursor_grab
    &&& s.audio
    &&& !s.hdr_passthrough
}

impl LookingGlassSpec {
    /// Sensible defaults: device `/dev/kvmfr0`, fullscreen on, cursor grab
    /// on, audio on, HDR passthrough off.
    pub fn defaults() -> (s: Self)
        ensures
            default_spec_fields(s),
    {
        LookingGlassSpec {
            device_path: DEFAULT_DEVICE_PATH.to_owned(),
            fullscreen: true,
            cursor_grab: true,
            audio: true,
            hdr_passthrough: false,
        }
    }
}

impl Default for LookingGlassSpec {
    fn default() -> (s: Self)
        ensures
            default_spec_fields(s),
    {
        Self::defaults()
    }
}

/// The client's argument vector for a spec, in `section:option=value`
/// notation.
pub open spec fn command_args(s: LookingGlassSpec) -> Seq<Seq<char>> {
    let screen: Seq<char> = if s.fullscreen {
        "win:fullScreen=yes"@
    } else {
        "win:fullScreen=no"@
    };
    let grab: Seq<Seq<char>> = if s.cursor_grab {
        seq!["input:grabKeyboard=yes"@, "input:grabKeyboardOnFocus=yes"@]
    } else {
        Seq::empty()
    };
    let audio: Seq<char> = if s.audio {
        "audio:micDefault=allow"@
    } else {
        "audio:micDefault=deny"@
    };
    let hdr: Seq<Seq<char>> = if s.hdr_passthrough {
        seq!["win:hdr=yes"@]
    } else {
        Seq::empty()
    };
    seq!["app:shmFile="@ + s.device_path@, screen] + grab + seq![audio] + hdr
}

/// Renders the command-line arguments for `looking-glass-client`.
pub fn render_command_args(spec: &LookingGlassSpec) -> (args: Vec<String>)
    ensures
        args.deep_view() == command_args(*spec),
{
    let mut args: Vec<String> = Vec::new();
    let mut shm = "app:shmFile=".to_owned();
    shm.append(spec.device_path.as_str());
    args.push(shm);
    if spec.fullscreen {
        args.push("win:fullScreen=yes".to_owned());
    } else {
        args.push("win:fullScreen=no".to_owned());
    }
    if spec.cursor_grab {
        args.push("input:grabKeyboard=yes".to_owned());
        args.push("input:grabKeyboardOnFocus=yes".to_owned());
    }
    if spec.audio {
        args.push("audio:micDefault=allow".to_owned());
    } else {
        args.push("audio:micDefault=deny".to_owned());
    }
    if spec.hdr_passthrough {
        args.push("win:hdr=yes".to_owned());
    }
    assert(args.deep_view() =~= command_args(*spec));
    args
}

/// Handle to a started (or mock) Looking Glass client.
#[derive(Debug)]
pub struct LookingGlassHandle {
    pid: Option<u32>,
    log_path: Option<String>,
    mock: bool,
}

impl LookingGlassHandle {
    /// Process id of the client, if one was started.
    pub closed spec fn spec_pid(&self) -> Option<u32> {
        self.pid
    }

    /// Log file of the client, if one was attached.
    pub closed spec fn spec_log_path(&self) -> Option<Seq<char>> {
        match self.log_path {
            Some(p) => Some(p@),
            None => None,
        }
    }

    /// Whether this handle stands for no real process.
    pub closed spec fn spec_is_mock(&self) -> bool {
        self.mock
    }

    /// PID of the spawned client. `None` for mock handles.
    pub fn pid(&self) -> (p: Option<u32>)
        ensures
            p == self.spec_pid(),
    {
        self.pid
    }

    /// Path to the client's log file. `None` if no log was attached.
    pub fn log_path(&self) -> (p: Option<&str>)
        ensures
            p.deep_view() == self.spec_log_path(),
    {
        match &self.log_path {
            Some(p) => Some(p.as_str()),
            None => None,
        }
    }

    /// `true` if this handle was built without starting a process.
    pub fn is_mock(&self) -> (b: bool)
        ensures
            b == self.spec_is_mock(),
    {
        self.mock
    }

    /// A handle that stands for no process (test / no-op mode).
    pub fn mock() -> (h: Self)
        ensures
            h.spec_pid() is None,
            h.spec_log_path() is None,
            h.spec_is_mock(),
    {
        LookingGlassHandle { pid: None, log_path: None, mock: true }
    }

    /// The handle of a client started as process `pid`, logging to
    /// `log_path` when one was attached.
    pub fn started(pid: u32, log_path: Option<String>) -> (h: Self)
        ensures
            h.spec_pid() == Some(pid),
            h.spec_log_path() == log_path.deep_view(),
            !h.spec_is_mock(),
    {
        LookingGlassHandle { pid: Some(pid), log_path, mock: false }
    }

    /// The process to send `SIGTERM` to when the handle is dropped: its PID,
    /// unless it is a mock handle.
    pub fn termination_target(&self) -> (t: Option<u32>)
        ensures
            t == (if self.spec_is_mock() {
                None
            } else {
                self.spec_pid()
            }),
    {
        if self.mock {
            None
        } else {
            self.pid
        }
    }
}

/// What `launch` does, given what it observed.
#[derive(Debug)]
pub enum LaunchStep {
    /// No-op mode: hand back a mock handle.
    Mock,
    /// Stop with this error.
    Fail(Error),
    /// Spawn the client binary that was found, with `args`.
    Spawn {
        /// The client's arguments.
        args: Vec<String>,
    },
}

/// The message for a missing kvmfr device.
pub open spec fn missing_device_message(device_path: Seq<char>, load_command: Seq<char>) -> Seq<
    char,
> {
    "Looking Glass device path "@ + device_path + " does not exist. Run `"@ + load_command
        + "` (sudo) and retry."@
}

/// The message for a client binary missing from `PATH`.
pub open spec fn missing_client_message() -> Seq<char> {
    "looking-glass-client not found on PATH. Install via your package manager (Arch: `sudo pacman -S looking-glass`; Debian/Ubuntu: `sudo apt install looking-glass-client`) and retry."@
}

/// Decides how to launch the client: in no-op mode a mock; otherwise the
/// device must exist and the client binary must have been found on `PATH`,
/// in that order; then spawn it with the rendered arguments.
/// `load_module_command` is the command that loads the kvmfr module.
pub fn plan_launch(
    spec: &LookingGlassSpec,
    noop: bool,
    device_exists: bool,
    client_found: bool,
    load_module_command: &str,
) -> (step: LaunchStep)
    ensures
        noop ==> step is Mock,
        !noop && !device_exists ==> (step matches LaunchStep::Fail(e) && e.category
            == ErrorCategory::Other && e.message@ == missing_device_message(
            spec.device_path@,
            load_module_command@,
        )),
        !noop && device_exists && !client_found ==> (step matches LaunchStep::Fail(e)
            && e.category == ErrorCategory::Other && e.message@ == missing_client_message()),
        !noop && device_exists && client_found ==> (step matches LaunchStep::Spawn { args }
            && args.deep_view() == command_args(*spec)),
{
    if noop {
        return LaunchStep::Mock;
    }
    if !device_exists {
        let mut m = "Looking Glass device path ".to_owned();
        m.append(spec.device_path.as_str());
        m.append(" does not exist. Run `");
        m.append(load_module_command);
        m.append("` (sudo) and retry.");
        return LaunchStep::Fail(Error::other(m));
    }
    if !client_found {
        return LaunchStep::Fail(
            Error::other(
                "looking-glass-client not found on PATH. Install via your package manager (Arch: `sudo pacman -S looking-glass`; Debian/Ubuntu: `sudo apt install looking-glass-client`) and retry.".to_owned(),
            ),
        );
    }
    LaunchStep::Spawn { args: render_command_args(spec) }
}

/// The argument vector always starts with the shared-memory device, holds
/// exactly one fullscreen and one microphone setting, and mentions HDR
/// exactly when HDR passthrough is on.
pub proof fn lemma_command_args_shape(s: LookingGlassSpec)
    ensures
        command_args(s)[0] == "app:shmFile="@ + s.device_path@,
        command_args(s).len() == 3 + (if s.cursor_grab {
            2int
        } else {
            0
        }) + (if s.hdr_passthrough {
            1int
        } else {
            0
        }),
        command_args(s).contains("win:hdr=yes"@) == s.hdr_passthrough,
{
    reveal_strlit("win:hdr=yes");
    reveal_strlit("app:shmFile=");
    reveal_strlit("win:fullScreen=yes");
    reveal_strlit("win:fullScreen=no");
    reveal_strlit("input:grabKeyboard=yes");
    reveal_strlit("input:grabKeyboardOnFocus=yes");
    reveal_strlit("audio:micDefault=allow");
    reveal_strlit("audio:micDefault=deny");
    let a = command_args(s);
    if s.hdr_passthrough {
        assert(a[a.len() - 1] == "win:hdr=yes"@);
    } else {
        assert forall|i: int| 0 <= i < a.len() implies a[i] != "win:hdr=yes"@ by {
            assert(a[i][4] != "win:hdr=yes"@[4] || a[i].len() != "win:hdr=yes"@.len());
        }
    }
}

} // verus!
