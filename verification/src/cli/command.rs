//! The `neon` command line as data, and what the binary answers to it.

use vstd::prelude::*;

verus! {

/// Shells for which completions can be generated.
#[derive(Debug, Clone, Copy, PartialEq, Eq, Structural)]
pub enum Shell {
    /// GNU Bash.
    Bash,
    /// Z shell.
    Zsh,
    /// fish.
    Fish,
    /// PowerShell.
    PowerShell,
    /// Elvish.
    Elvish,
}

/// Targets of `neon update`.
#[derive(Debug, Clone, PartialEq, Eq)]
pub enum UpdateTarget {
    /// Update (or roll back) the Widevine CDM.
    Widevine {
        /// Roll back to the previous version.
        rollback: bool,
        /// Custom manifest source.
        cdm_source: Option<String>,
    },
    /// Self-update the binary.
    SelfUpdate,
}

/// The subcommands of `neon`.
#[derive(Debug, Clone, PartialEq, Eq)]
pub enum Command {
    /// Interactive first-run setup wizard.
    Init,
    /// Non-interactive install.
    Setup,
    /// Patch one or more browsers.
    Patch {
        /// Patch even if already patched.
        force: bool,
        /// Show what would be done.
        dry_run: bool,
        /// Specific browser to patch.
        browser: Option<String>,
    },
    /// Show patch state.
    Status {
        /// Keep refreshing.
        watch: bool,
    },
    /// Enumerate browsers.
    ListBrowsers {
        /// Include discovered and custom entries.
        all: bool,
    },
    /// Run diagnostics.
    Doctor {
        /// Print a prefilled issue URL.
        share: bool,
        /// EME error code to translate.
        error_code: Option<String>,
    },
    /// EME health check.
    Test,
    /// Update the CDM or the binary.
    Update {
        /// What to update.
        target: UpdateTarget,
    },
    /// Uninstall + setup.
    Repair,
    /// Verify a browser is patched, then launch it.
    Launch {
        /// Browser name.
        browser: String,
    },
    /// Remove the daemon and cache.
    Uninstall,
    /// Shell completions.
    Completion {
        /// Target shell.
        shell: Shell,
    },
    /// Man page.
    Manpage,
}

/// The name a subcommand is invoked by.
pub open spec fn name_of(c: Command) -> Seq<char> {
    match c {
        Command::Init => "init"@,
        Command::Setup => "setup"@,
        Command::Patch { .. } => "patch"@,
        Command::Status { .. } => "status"@,
        Command::ListBrowsers { .. } => "list-browsers"@,
        Command::Doctor { .. } => "doctor"@,
        Command::Test => "test"@,
        Command::Update { .. } => "update"@,
        Command::Repair => "repair"@,
        Command::Launch { .. } => "launch"@,
        Command::Uninstall => "uninstall"@,
        Command::Completion { .. } => "completion"@,
        Command::Manpage => "manpage"@,
    }
}

/// The name a subcommand is invoked by (e.g. "list-browsers").
pub fn command_name(c: &Command) -> (name: &'static str)
    ensures
        name@ == name_of(*c),
{
    match c {
        Command::Init => "init",
        Command::Setup => "setup",
        Command::Patch { .. } => "patch",
        Command::Status { .. } => "status",
        Command::ListBrowsers { .. } => "list-browsers",
        Command::Doctor { .. } => "doctor",
        Command::Test => "test",
        Command::Update { .. } => "update",
        Command::Repair => "repair",
        Command::Launch { .. } => "launch",
        Command::Uninstall => "uninstall",
        Command::Completion { .. } => "completion",
        Command::Manpage => "manpage",
    }
}

/// Exit status of every invocation this build answers.
pub const NOT_IMPLEMENTED_EXIT: u8 = 2;

/// The diagnostic printed for an invocation.
pub open spec fn invocation_message(c: Option<Command>) -> Seq<char> {
    match c {
        None => "neon: tray daemon not yet implemented (Phase 3)"@,
        Some(cmd) => "neon: subcommand `"@ + name_of(cmd) + "` not yet implemented"@,
    }
}

/// What the binary answers to a parsed command line: a diagnostic for
/// standard error and the exit status. No subcommand means the tray daemon.
pub fn invocation_outcome(c: &Option<Command>) -> (r: (String, u8))
    ensures
        r.0@ == invocation_message(*c),
        r.1 == NOT_IMPLEMENTED_EXIT,
{
    match c {
        None => ("neon: tray daemon not yet implemented (Phase 3)".to_owned(), NOT_IMPLEMENTED_EXIT),
        Some(cmd) => {
            let mut m = "neon: subcommand `".to_owned();
            m.append(command_name(cmd));
            m.append("` not yet implemented");
            (m, NOT_IMPLEMENTED_EXIT)
        },
    }
}

} // verus!
