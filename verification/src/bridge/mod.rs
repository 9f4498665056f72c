//! Experimental localhost bridge: a Windows guest with GPU/TPM passthrough,
//! viewed through Looking Glass.

pub mod health;
pub mod license;
pub mod looking_glass;

use vstd::prelude::*;

use crate::error::{Error, ErrorCategory};

verus! {

/// The message `stream` fails with while the bridge is not built.
pub open spec fn stream_stub_message() -> Seq<char> {
    "neon stream is queued for V3; current build is a stub. Track ROADMAP.md and the localhost-bridge scaffolding plan (docs/superpowers/specs/2026-05-04-neon-v3-localhost-bridge-scaffolding-plan.md)."@
}

/// Entry point of `neon stream <url>`. The bridge is not built yet, so this
/// always fails with an [`ErrorCategory::Other`] error pointing at the
/// roadmap.
pub fn stream(_target_url: &str) -> (r: Result<(), Error>)
    ensures
        r is Err,
        r matches Err(e) ==> e.category == ErrorCategory::Other && e.message@
            == stream_stub_message(),
{
    Err(Error::other("neon stream is queued for V3; current build is a stub. Track ROADMAP.md and the localhost-bridge scaffolding plan (docs/superpowers/specs/2026-05-04-neon-v3-localhost-bridge-scaffolding-plan.md).".to_owned()))
}

/// Snapshot of the host capabilities the bridge wizard consults. It carries
/// no probes yet.
#[derive(Debug, Clone)]
pub struct HardwareCapabilities;

impl HardwareCapabilities {
    /// Detects host capabilities; currently the empty snapshot.
    pub fn detect() -> (caps: Self)
        ensures
            caps == HardwareCapabilities,
    {
        HardwareCapabilities
    }
}

} // verus!
