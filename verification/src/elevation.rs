//! Privilege elevation: deciding whether a command needs elevated rights,
//! building the platform-specific helper invocation and classifying every
//! helper outcome into one closed error taxonomy.
//!
//! The decision logic is verified and purely functional.  Spawning the
//! helper processes, probing the environment and sleeping between output
//! polls are left to the embedding application, which feeds the results
//! back in as plain values (`ProcOutcome`, `EnvSignals`, `SocketProbe`).

pub mod command;
pub mod detection;
pub mod error;
pub mod linux;
pub mod macos;
pub mod windows;

use vstd::prelude::*;

use crate::elevation::command::{direct_command, CommandSpec};
use crate::elevation::detection::{
    check_elevation_required, spec_check_is_err, spec_required, spec_unsupported_env_error,
    EnvSignals, Platform, SocketProbe,
};
use crate::elevation::error::ElevationError;
use crate::elevation::linux::{
    linux_elevation_plan, spec_linux_plan_shape, spec_tool_not_found, LinuxPlan,
};
use crate::elevation::macos::{
    macos_elevation_command, spec_macos_command_ok, spec_macos_quotable, spec_macos_quote_error,
};
use crate::elevation::windows::{windows_request, WindowsRequest};

verus! {

/// What the application must execute to fulfil one elevation request.
#[derive(Debug, Clone, PartialEq)]
pub enum ExecutionPlan {
    /// No elevation needed: run the program directly.
    Direct(CommandSpec),
    /// Elevate through pkexec or sudo (Linux and the BSDs).
    Linux(LinuxPlan),
    /// Elevate through an administrator-privileges script run by
    /// `osascript` (macOS).
    MacOs(CommandSpec),
    /// Elevate through a UAC-triggering PowerShell launcher (Windows);
    /// the launcher command line is built once the application has
    /// created the temporary output file.
    Windows(WindowsRequest),
}

/// Selects the elevator matching `platform` and builds its invocation.
/// The BSDs use the Linux elevator, since their tooling is sudo-based.
pub fn run_elevated(platform: Platform, program: &str, args: &Vec<String>) -> (r: Result<
    ExecutionPlan,
    ElevationError,
>)
    ensures
        platform is Linux || platform is BSD ==> ((r matches Ok(plan) ==> (plan
            matches ExecutionPlan::Linux(lp) && spec_linux_plan_shape(
            program@,
            args.deep_view(),
            lp,
        ))) && (r matches Err(e) ==> spec_tool_not_found(e))),
        platform is MacOS ==> ((r is Ok <==> spec_macos_quotable(program@, args.deep_view())) && (r
            matches Ok(plan) ==> (plan matches ExecutionPlan::MacOs(c) && spec_macos_command_ok(
            program@,
            args.deep_view(),
            c,
        ))) && (r matches Err(e) ==> spec_macos_quote_error(program@, e))),
        platform is Windows ==> (r matches Ok(ExecutionPlan::Windows(w)) && w.program@ == program@
            && w.args@ == args@),
{
    match platform {
        Platform::Linux | Platform::BSD => {
            match linux_elevation_plan(program, args) {
                Ok(plan) => Ok(ExecutionPlan::Linux(plan)),
                Err(e) => Err(e),
            }
        },
        Platform::MacOS => {
            match macos_elevation_command(program, args) {
                Ok(c) => Ok(ExecutionPlan::MacOs(c)),
                Err(e) => Err(e),
            }
        },
        Platform::Windows => Ok(ExecutionPlan::Windows(windows_request(program, args))),
    }
}

/// The single entry point of the subsystem: decides whether `program`
/// with `args` needs elevation in the session described by `env` and
/// `socket`, and plans either a direct run or the invocation of the
/// elevator matching `platform`.  An environment that cannot present a
/// prompt is rejected outright; requirement checking and elevator
/// selection are resolved afresh on every call, with no state carried
/// between calls.
pub fn run_with_elevation(
    program: &str,
    args: &Vec<String>,
    platform: Platform,
    env: &EnvSignals,
    socket: SocketProbe,
) -> (r: Result<ExecutionPlan, ElevationError>)
    ensures
        spec_check_is_err(program@, args.deep_view(), platform, *env) ==> (r matches Err(e)
            && spec_unsupported_env_error(*env, e)),
        !spec_check_is_err(program@, args.deep_view(), platform, *env) && !spec_required(
            program@,
            args.deep_view(),
            platform,
            socket,
        ) ==> (r matches Ok(ExecutionPlan::Direct(c)) && c.program@ == program@ && c.args@ == args@
            && c.env@ == Seq::<(String, String)>::empty()),
        !spec_check_is_err(program@, args.deep_view(), platform, *env) && spec_required(
            program@,
            args.deep_view(),
            platform,
            socket,
        ) ==> ((platform is Linux || platform is BSD ==> ((r matches Ok(plan) ==> (plan
            matches ExecutionPlan::Linux(lp) && spec_linux_plan_shape(
            program@,
            args.deep_view(),
            lp,
        ))) && (r matches Err(e) ==> spec_tool_not_found(e)))) && (platform is MacOS ==> ((r is Ok
            <==> spec_macos_quotable(program@, args.deep_view())) && (r matches Ok(plan) ==> (plan
            matches ExecutionPlan::MacOs(c) && spec_macos_command_ok(
            program@,
            args.deep_view(),
            c,
        ))) && (r matches Err(e) ==> spec_macos_quote_error(program@, e)))) && (platform is Windows
            ==> (r matches Ok(ExecutionPlan::Windows(w)) && w.program@ == program@ && w.args@
            == args@))),
{
    match check_elevation_required(program, args, platform, env, socket) {
        Err(e) => Err(e),
        Ok(false) => Ok(ExecutionPlan::Direct(direct_command(program, args))),
        Ok(true) => run_elevated(platform, program, args),
    }
}

/// The dispatch carries no state between calls: whether the check
/// rejects the session and whether elevation is required are functions
/// of the request and of the host facts alone, so two sequential calls
/// with the same inputs resolve both questions the same way.
pub proof fn lemma_dispatch_stateless(
    program1: Seq<char>,
    args1: Seq<Seq<char>>,
    platform1: Platform,
    env1: EnvSignals,
    socket1: SocketProbe,
    program2: Seq<char>,
    args2: Seq<Seq<char>>,
    platform2: Platform,
    env2: EnvSignals,
    socket2: SocketProbe,
)
    requires
        program1 == program2,
        args1 == args2,
        platform1 == platform2,
        env1 == env2,
        socket1 == socket2,
    ensures
        spec_check_is_err(program1, args1, platform1, env1) == spec_check_is_err(
            program2,
            args2,
            platform2,
            env2,
        ),
        spec_required(program1, args1, platform1, socket1) == spec_required(
            program2,
            args2,
            platform2,
            socket2,
        ),
{
}

} // verus!
