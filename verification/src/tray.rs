//! Support for the tray service loop: its error kinds, the respawn
//! signal the watchdog polls, the watchdog's backoff, and the command
//! the connect/disconnect menu entries run.  The loop itself (threads,
//! signal handling, the tray protocol) lives in the application.

use vstd::prelude::*;
use vstd::string::StringExecFns;

use crate::elevation::command::{clone_string_vec, CommandSpec};

verus! {

/// Failures of tray operations.
#[derive(Debug, Clone, PartialEq)]
pub enum TrayError {
    /// A command could not be executed.
    Command(String),
    /// The status refresh failed.
    StatusUpdate(String),
    /// A notification could not be shown.
    Notification(String),
}

/// The one-line description of `e`.
pub open spec fn spec_tray_error_message(e: TrayError) -> Seq<char> {
    match e {
        TrayError::Command(m) => "Command execution failed: "@ + m@,
        TrayError::StatusUpdate(m) => "Status update failed: "@ + m@,
        TrayError::Notification(m) => "Notification failed: "@ + m@,
    }
}

impl TrayError {
    /// Renders the error as the one-line description a user sees.
    pub fn to_message(&self) -> (r: String)
        ensures
            r@ == spec_tray_error_message(*self),
    {
        let mut s = String::new();
        match self {
            TrayError::Command(m) => {
                s.append("Command execution failed: ");
                s.append(m.as_str());
            },
            TrayError::StatusUpdate(m) => {
                s.append("Status update failed: ");
                s.append(m.as_str());
            },
            TrayError::Notification(m) => {
                s.append("Notification failed: ");
                s.append(m.as_str());
            },
        }
        proof {
            assert(s@ =~= spec_tray_error_message(*self));
        }
        s
    }
}

/// The flag through which a disconnected tray asks the watchdog to
/// respawn it.  The application holds one and polls it.
#[derive(Debug, Clone, Copy, PartialEq, Eq, Structural)]
pub struct RespawnFlag {
    /// Whether a respawn has been requested and not yet served.
    pub needs_respawn: bool,
}

impl RespawnFlag {
    /// A flag with no pending request.
    pub fn new() -> (r: RespawnFlag)
        ensures
            !r.needs_respawn,
    {
        RespawnFlag { needs_respawn: false }
    }
}

/// Signals that the tray needs to be respawned.
pub fn signal_respawn_needed(flag: &mut RespawnFlag)
    ensures
        final(flag).needs_respawn,
{
    flag.needs_respawn = true;
}

/// The watchdog's backoff after consecutive respawn failures: doubling
/// from one second, capped at sixteen (two to the fourth) and never
/// above thirty.
pub open spec fn spec_respawn_delay(failures: int) -> int {
    if failures <= 0 {
        1
    } else if failures == 1 {
        2
    } else if failures == 2 {
        4
    } else if failures == 3 {
        8
    } else {
        16
    }
}

/// How many seconds the watchdog waits before the next respawn attempt.
pub fn respawn_delay_secs(consecutive_failures: u32) -> (r: u64)
    ensures
        r as int == spec_respawn_delay(consecutive_failures as int),
{
    if consecutive_failures == 0 {
        1
    } else if consecutive_failures == 1 {
        2
    } else if consecutive_failures == 2 {
        4
    } else if consecutive_failures == 3 {
        8
    } else {
        16
    }
}

/// The command a connect/disconnect menu entry runs: with elevation,
/// the pkexec helper at `pkexec_path` on `tailscale <verb>`; without,
/// `tailscale <verb>` directly.  No environment overrides either way.
pub fn service_link_command(elevate: bool, pkexec_path: &str, verb: &str) -> (c: CommandSpec)
    ensures
        elevate ==> c.program@ == pkexec_path@ && c.args.deep_view() == seq!["tailscale"@, verb@],
        !elevate ==> c.program@ == "tailscale"@ && c.args.deep_view() == seq![verb@],
        c.env@ == Seq::<(String, String)>::empty(),
{
    let mut args: Vec<String> = Vec::new();
    let program: String;
    if elevate {
        program = pkexec_path.to_owned();
        args.push("tailscale".to_owned());
        args.push(verb.to_owned());
        proof {
            assert(args.deep_view() =~= seq!["tailscale"@, verb@]);
        }
    } else {
        program = "tailscale".to_owned();
        args.push(verb.to_owned());
        proof {
            assert(args.deep_view() =~= seq![verb@]);
        }
    }
    let c = CommandSpec { program, args, env: Vec::new() };
    proof {
        assert(c.env@ =~= Seq::<(String, String)>::empty());
    }
    c
}

} // verus!
