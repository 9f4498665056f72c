//! How the bridge guest is licensed.

use vstd::prelude::*;

verus! {

/// The licensing posture recorded for the bridge guest.
#[derive(Debug, Clone, PartialEq, Eq)]
pub enum LicensePosture {
    /// Evaluation (trial) licence, accepted at the given UNIX time.
    Eval {
        /// UNIX timestamp (seconds) at which the trial was accepted.
        accepted_at: u64,
    },
    /// A product key.
    Key(String),
    /// A path to a licence file.
    KeyFile(String),
}

} // verus!
