//! Per-browser patch reports.

use vstd::prelude::*;

verus! {

/// Outcome of patching one browser.
#[derive(Debug, Clone, PartialEq, Eq)]
pub struct PatchReport {
    /// Display name of the browser.
    pub browser: String,
    /// Whether the patch succeeded.
    pub success: bool,
    /// CDM version written, when known.
    pub cdm_version: Option<String>,
    /// Browser version before patching, when known.
    pub version_before: Option<String>,
    /// Browser version after patching, when known.
    pub version_after: Option<String>,
    /// Whether this was a dry run.
    pub dry_run: bool,
    /// Error message, when the patch failed.
    pub error: Option<String>,
}

} // verus!
