//! `neon stream`: the experimental bridge subcommands.

pub mod status;

use vstd::prelude::*;

use crate::cli::OutputOptions;

verus! {

/// Where `neon stream` without a subcommand goes.
#[derive(Debug, Clone, Copy, PartialEq, Eq, Structural)]
pub enum StreamRoute {
    /// Run the setup wizard.
    Init,
    /// Show the bridge status.
    Status,
}

/// The decision of `neon stream` without a subcommand.
#[derive(Debug)]
pub struct DefaultDispatch {
    /// Line to print before running the chosen subcommand.
    pub notice: Option<String>,
    /// Subcommand to run, with the caller's output flags.
    pub route: StreamRoute,
}

/// The line announcing that the wizard is about to run.
pub open spec fn unprovisioned_notice() -> Seq<char> {
    "Bridge not yet provisioned. Running `neon stream init --accept-eval` (interactive)."@
}

/// `neon stream` with no arguments: run the setup wizard when no licence
/// posture is recorded yet (announcing it unless `quiet`), otherwise show
/// the status.
pub fn dispatch_default(output: &OutputOptions, provisioned: bool) -> (d: DefaultDispatch)
    ensures
        d.route == (if provisioned {
            StreamRoute::Status
        } else {
            StreamRoute::Init
        }),
        d.notice.deep_view() == (if !provisioned && !output.quiet {
            Some(unprovisioned_notice())
        } else {
            None
        }),
{
    if provisioned {
        DefaultDispatch { notice: None, route: StreamRoute::Status }
    } else if output.quiet {
        DefaultDispatch { notice: None, route: StreamRoute::Init }
    } else {
        DefaultDispatch {
            notice: Some(
                "Bridge not yet provisioned. Running `neon stream init --accept-eval` (interactive).".to_owned(),
            ),
            route: StreamRoute::Init,
        }
    }
}

} // verus!
