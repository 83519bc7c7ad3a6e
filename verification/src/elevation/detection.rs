//! Platform detection and the elevation requirement check.
//!
//! The requirement check is a pure function of the request and of a few
//! host facts: the environment signals relevant to presenting a prompt
//! and the result of probing the daemon's control socket.  The
//! application gathers those facts (they need environment and socket
//! access) and passes them in as plain values.

use vstd::prelude::*;
use vstd::string::StringExecFns;

use crate::elevation::error::ElevationError;
use crate::strings::str_eq;

verus! {

/// Supported platforms for elevation operations: the closed set of
/// variants used to select the elevation mechanism (pkexec/sudo for
/// Linux, osascript for macOS, UAC for Windows, sudo for the BSDs).
#[derive(Debug, Clone, Copy, PartialEq, Eq, Structural)]
pub enum Platform {
    /// Linux operating systems.
    Linux,
    /// Apple macOS.
    MacOS,
    /// Microsoft Windows.
    Windows,
    /// The BSD family (FreeBSD, OpenBSD, NetBSD, DragonFly).
    BSD,
}

/// The operating-system family reported by the host, before the
/// defaulting rule is applied.
#[derive(Debug, Clone, Copy, PartialEq, Eq, Structural)]
pub enum OsFamily {
    /// A Linux system.
    Linux,
    /// An Apple macOS system.
    Mac,
    /// A Microsoft Windows system.
    Windows,
    /// A BSD-family system.
    Bsd,
    /// Any other operating system.
    Other,
}

/// Relies on `whoami::platform`: reports which operating system the
/// running process was built for and runs on.
#[verifier::external_body]
fn detect_os_family() -> OsFamily {
    match whoami::platform() {
        whoami::Platform::Linux => OsFamily::Linux,
        whoami::Platform::Mac => OsFamily::Mac,
        whoami::Platform::Windows => OsFamily::Windows,
        whoami::Platform::Bsd => OsFamily::Bsd,
        _ => OsFamily::Other,
    }
}

/// The platform variant for an operating-system family.  Families other
/// than the four supported ones default to Linux rather than failing:
/// the Linux elevator's mechanisms (pkexec/sudo) are the best universal
/// fallback on Unix-like systems.
pub open spec fn spec_platform_of(f: OsFamily) -> Platform {
    match f {
        OsFamily::Linux => Platform::Linux,
        OsFamily::Mac => Platform::MacOS,
        OsFamily::Windows => Platform::Windows,
        OsFamily::Bsd => Platform::BSD,
        OsFamily::Other => Platform::Linux,
    }
}

/// Maps an operating-system family to the platform whose elevator
/// handles it, defaulting unrecognized families to Linux.
pub fn platform_of_family(f: OsFamily) -> (p: Platform)
    ensures
        p == spec_platform_of(f),
{
    match f {
        OsFamily::Linux => Platform::Linux,
        OsFamily::Mac => Platform::MacOS,
        OsFamily::Windows => Platform::Windows,
        OsFamily::Bsd => Platform::BSD,
        OsFamily::Other => Platform::Linux,
    }
}

impl Platform {
    /// Detects the current platform from the running host's
    /// operating-system family.
    pub fn current() -> (p: Platform) {
        let f = detect_os_family();
        platform_of_family(f)
    }
}

/// The result of probing the daemon's control socket with a connect
/// attempt.
#[derive(Debug, Clone, Copy, PartialEq, Eq, Structural)]
pub enum SocketProbe {
    /// The connect attempt succeeded: the socket is reachable as-is.
    Connected,
    /// The connect attempt failed with a "not found" error: the daemon
    /// socket is absent, so elevating would not help reach it.
    NotFound,
    /// The connect attempt failed another way (for example, permission
    /// denied): the socket exists but is not accessible.
    Inaccessible,
    /// The probe itself could not be carried out.
    ProbeFailed,
}

/// Environment signals consumed by the requirement check, read-only and
/// externally owned: the graphical display variables, the session-type
/// variable, the service-invocation marker, and whether standard input
/// is attached to an interactive terminal.
#[derive(Debug, Clone, PartialEq)]
pub struct EnvSignals {
    /// Value of the `DISPLAY` variable, if set.
    pub display: Option<String>,
    /// Value of the `WAYLAND_DISPLAY` variable, if set.
    pub wayland_display: Option<String>,
    /// Value of the `XDG_SESSION_TYPE` variable, if set.
    pub session_type: Option<String>,
    /// Value of the `INVOCATION_ID` variable, if set: present when the
    /// process runs as a background service.
    pub invocation_id: Option<String>,
    /// Whether standard input is attached to an interactive terminal.
    pub stdin_is_terminal: bool,
}

/// A graphical display environment variable is set (X11- or
/// Wayland-style).
pub open spec fn spec_has_display(env: EnvSignals) -> bool {
    env.display is Some || env.wayland_display is Some
}

/// The session-type variable says "tty", or standard input is an
/// interactive terminal.
pub open spec fn spec_has_tty(env: EnvSignals) -> bool {
    (env.session_type matches Some(t) && t@ == "tty"@) || env.stdin_is_terminal
}

/// `w` is one of the strings in `args`.
pub open spec fn spec_has_arg(args: Seq<Seq<char>>, w: Seq<char>) -> bool {
    exists|i: int| 0 <= i < args.len() && args[i] == w
}

/// The argument list names a privilege-sensitive subcommand: only `up`
/// and `down` are.
pub open spec fn spec_privileged_subcommand(args: Seq<Seq<char>>) -> bool {
    spec_has_arg(args, "up"@) || spec_has_arg(args, "down"@)
}

/// Whether the socket probe's outcome calls for elevation.  A reachable
/// socket needs none; an absent socket file needs none either (elevation
/// would not help reach a nonexistent daemon); an inaccessible socket or
/// a failed probe is answered conservatively with "elevation required",
/// preferring to ask for a prompt over silently failing.
pub open spec fn spec_socket_requires_elevation(probe: SocketProbe) -> bool {
    probe is Inaccessible || probe is ProbeFailed
}

/// Whether a tailscale invocation with `args` requires elevation on
/// `platform`, given the socket probe's outcome.  Only Linux ever
/// requires it, and only for the `up` and `down` subcommands.
pub open spec fn spec_tailscale_required(
    args: Seq<Seq<char>>,
    platform: Platform,
    probe: SocketProbe,
) -> bool {
    spec_privileged_subcommand(args) && platform is Linux && spec_socket_requires_elevation(probe)
}

/// Whether the requirement check fails with `UnsupportedEnvironment`:
/// only on Linux, only for programs other than tailscale, and only when
/// the session has neither a display nor a TTY to present a prompt on.
pub open spec fn spec_check_is_err(
    program: Seq<char>,
    args: Seq<Seq<char>>,
    platform: Platform,
    env: EnvSignals,
) -> bool {
    program != "tailscale"@ && platform is Linux && !spec_has_display(env) && !spec_has_tty(env)
}

/// The answer of the requirement check when it does not fail: elevation
/// is needed exactly for privilege-sensitive tailscale subcommands on
/// Linux whose control socket is not already usable.
pub open spec fn spec_required(
    program: Seq<char>,
    args: Seq<Seq<char>>,
    platform: Platform,
    probe: SocketProbe,
) -> bool {
    program == "tailscale"@ && spec_tailscale_required(args, platform, probe)
}

/// `e` is the error the requirement check raises when the session
/// cannot present a prompt, with the constraint matching the session's
/// signals: the service marker names the stricter constraint.
pub open spec fn spec_unsupported_env_error(env: EnvSignals, e: ElevationError) -> bool {
    e matches ElevationError::UnsupportedEnvironment { platform: p, constraint: c } && p@
        == "Linux"@ && c@ == (if env.invocation_id is Some {
        "service without controlling terminal"@
    } else {
        "headless environment without display or TTY"@
    })
}

/// Whether `w` occurs in `args`.
pub fn has_arg(args: &Vec<String>, w: &str) -> (r: bool)
    ensures
        r == spec_has_arg(args.deep_view(), w@),
{
    let mut i: usize = 0;
    while i < args.len()
        invariant
            i <= args@.len(),
            args.deep_view().len() == args@.len(),
            forall|j: int| 0 <= j < args@.len() ==> args.deep_view()[j] == args@[j]@,
            forall|j: int| 0 <= j < i ==> args.deep_view()[j] != w@,
        decreases args@.len() - i,
    {
        if str_eq(args[i].as_str(), w) {
            proof {
                assert(args.deep_view()[i as int] == w@);
                assert(spec_has_arg(args.deep_view(), w@));
            }
            return true;
        }
        i = i + 1;
    }
    false
}

/// Checks whether a tailscale command requires elevated privileges:
/// only the `up` and `down` subcommands are privilege-sensitive, and
/// only on Linux, where the control socket's accessibility decides.
pub fn check_tailscale_elevation(args: &Vec<String>, platform: Platform, socket: SocketProbe) -> (r:
    Result<bool, ElevationError>)
    ensures
        r matches Ok(required) && required == spec_tailscale_required(
            args.deep_view(),
            platform,
            socket,
        ),
{
    let privileged = if has_arg(args, "up") {
        true
    } else {
        has_arg(args, "down")
    };
    if !privileged {
        return Ok(false);
    }
    match platform {
        Platform::Linux => {
            match socket {
                SocketProbe::Connected => Ok(false),
                SocketProbe::NotFound => Ok(false),
                SocketProbe::Inaccessible => Ok(true),
                SocketProbe::ProbeFailed => Ok(true),
            }
        },
        Platform::MacOS | Platform::Windows | Platform::BSD => Ok(false),
    }
}

/// Determines whether running `program` with `args` requires elevated
/// privileges.  Tailscale commands get the socket-based check; for any
/// other program, a Linux session must be able to present a privilege
/// prompt at all (a display or a TTY), else the check fails with
/// `UnsupportedEnvironment`; everything else needs no elevation.
pub fn check_elevation_required(
    program: &str,
    args: &Vec<String>,
    platform: Platform,
    env: &EnvSignals,
    socket: SocketProbe,
) -> (r: Result<bool, ElevationError>)
    ensures
        r is Err <==> spec_check_is_err(program@, args.deep_view(), platform, *env),
        r matches Err(e) ==> spec_unsupported_env_error(*env, e),
        r matches Ok(required) ==> required == spec_required(
            program@,
            args.deep_view(),
            platform,
            socket,
        ),
{
    if str_eq(program, "tailscale") {
        return check_tailscale_elevation(args, platform, socket);
    }
    if matches!(platform, Platform::Linux) {
        let has_display = env.display.is_some() || env.wayland_display.is_some();
        let has_tty = match &env.session_type {
            Some(t) => str_eq(t.as_str(), "tty") || env.stdin_is_terminal,
            None => env.stdin_is_terminal,
        };
        if !has_display && !has_tty {
            if env.invocation_id.is_some() {
                return Err(
                    ElevationError::UnsupportedEnvironment {
                        platform: "Linux".to_owned(),
                        constraint: "service without controlling terminal".to_owned(),
                    },
                );
            }
            return Err(
                ElevationError::UnsupportedEnvironment {
                    platform: "Linux".to_owned(),
                    constraint: "headless environment without display or TTY".to_owned(),
                },
            );
        }
    }
    Ok(false)
}

/// The platform-specific path of the daemon's control socket.
pub open spec fn spec_socket_path(platform: Platform) -> Seq<char> {
    match platform {
        Platform::BSD => "/var/run/tailscaled.sock"@,
        _ => "/var/run/tailscale/tailscaled.sock"@,
    }
}

/// Returns the filesystem path of the daemon's control socket on
/// `platform`.
pub fn tailscale_socket_path(platform: Platform) -> (r: String)
    ensures
        r@ == spec_socket_path(platform),
{
    match platform {
        Platform::BSD => "/var/run/tailscaled.sock".to_owned(),
        _ => "/var/run/tailscale/tailscaled.sock".to_owned(),
    }
}

} // verus!
