//! Tray companion for a mesh-VPN daemon.
//!
//! The heart of the crate is the privilege-elevation subsystem: deciding
//! whether a command needs elevated rights, building the platform-specific
//! helper invocation (pkexec/sudo, osascript, UAC via PowerShell), and
//! classifying every outcome of those helpers into one closed error
//! taxonomy.  All decision logic is verified; the process spawns, the
//! environment probes and the tray UI live in the surrounding application,
//! which feeds their results back in as plain values.

pub mod strings;
pub mod elevation;
pub mod pkexec;
pub mod tailscale;
pub mod peer;
pub mod svg;
pub mod tray;
