//! Command-line surface: global output flags, the command model, and the
//! `update` and `stream` subcommands.

pub mod command;
pub mod patch;
pub mod stream;
pub mod update;

use vstd::prelude::*;

verus! {

/// Global output flags shared by every subcommand.
#[derive(Debug, Clone, Copy, PartialEq, Eq, Structural)]
pub struct OutputOptions {
    /// Emit structured JSON output where supported.
    pub json: bool,
    /// Silence non-error output.
    pub quiet: bool,
    /// Disable coloured output.
    pub no_color: bool,
}

impl Default for OutputOptions {
    fn default() -> (o: Self)
        ensures
            o == (OutputOptions { json: false, quiet: false, no_color: false }),
    {
        OutputOptions { json: false, quiet: false, no_color: false }
    }
}

} // verus!
