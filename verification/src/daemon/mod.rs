//! The long-running tray daemon.

pub mod tray;
