//! Decision and rendering logic of the Neon bridge tooling: the bridge
//! health monitor, the Looking Glass launch arguments, the tray menu model,
//! the `neon stream status` report and the `neon update widevine` report.

pub mod bridge;
pub mod browsers;
pub mod cli;
pub mod daemon;
pub mod error;
pub mod text;
