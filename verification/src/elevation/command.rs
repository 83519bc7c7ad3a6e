//! The process boundary of the subsystem.  A `CommandSpec` says exactly
//! what the application must spawn (with stdout and stderr captured); a
//! `ProcOutcome` is what it hands back.  The direct runner's outcome
//! classification lives here too.

use vstd::prelude::*;

use crate::elevation::error::ElevationError;

verus! {

/// One child-process invocation: the program, its arguments in order and
/// the environment variables to force over the inherited environment.
#[derive(Debug, Clone, PartialEq)]
pub struct CommandSpec {
    /// Name or path of the program to spawn.
    pub program: String,
    /// Command-line arguments, in order.
    pub args: Vec<String>,
    /// Environment variables to set for the child, as (name, value) pairs.
    pub env: Vec<(String, String)>,
}

/// Where a process execution failed before producing an exit status.
#[derive(Debug, Clone, Copy, PartialEq, Eq, Structural)]
pub enum SpawnStage {
    /// The child could not be spawned at all.
    Launch,
    /// The child was spawned but waiting for its output failed.
    Wait,
}

/// What running one `CommandSpec` produced.
#[derive(Debug, Clone, PartialEq)]
pub enum ProcOutcome {
    /// The process never delivered an exit status.
    Failed {
        /// Whether spawning or waiting failed.
        stage: SpawnStage,
        /// The operating system's description of the failure.
        reason: String,
    },
    /// The process ran to completion.
    Exited {
        /// Whether the process reported success (exit status zero).
        success: bool,
        /// The exit code, if the process ended with one.
        code: Option<i32>,
        /// Captured standard output, decoded lossily as text.
        stdout: String,
        /// Captured standard error, decoded lossily as text.
        stderr: String,
    },
}

/// The exit code to report for a process: the code the operating system
/// gave, or `-1` as the documented sentinel when none exists (for
/// example, the process was terminated by a signal).
pub open spec fn spec_exit_code(code: Option<i32>) -> int {
    match code {
        Some(c) => c as int,
        None => -1,
    }
}

/// The exit code of `code`, with `-1` standing in when there is none.
pub fn exit_code_or_sentinel(code: Option<i32>) -> (r: i32)
    ensures
        r as int == spec_exit_code(code),
{
    match code {
        Some(c) => c,
        None => -1,
    }
}

/// Copies a vector of strings; the copy holds the same text.
pub fn clone_string_vec(v: &Vec<String>) -> (r: Vec<String>)
    ensures
        r@ == v@,
{
    let r = v.clone();
    proof {
        assert forall|i: int| 0 <= i < v@.len() implies r@[i] == v@[i] by {
            assert(cloned(v@[i], r@[i]));
        }
        assert(r@ =~= v@);
    }
    r
}

/// The invocation of `program` with `args` unchanged and no environment
/// overrides: how a command runs when no elevation is needed.
pub fn direct_command(program: &str, args: &Vec<String>) -> (c: CommandSpec)
    ensures
        c.program@ == program@,
        c.args@ == args@,
        c.env@ == Seq::<(String, String)>::empty(),
{
    let c = CommandSpec { program: program.to_owned(), args: clone_string_vec(args), env: Vec::new() };
    c
}

/// Classifies the outcome of a direct (unelevated) run: success yields
/// the captured stdout; a non-zero exit yields `CommandFailed` carrying
/// the reported exit code and stderr; a spawn or wait failure yields
/// `ExecutionFailed` naming the target program.
pub fn classify_direct_outcome(program: &str, outcome: ProcOutcome) -> (r: Result<
    String,
    ElevationError,
>)
    ensures
        (outcome matches ProcOutcome::Failed { stage, reason } ==> r matches Err(
            ElevationError::ExecutionFailed { program: ep, reason: er },
        ) && ep@ == program@ && er@ == reason@),
        (outcome matches ProcOutcome::Exited { success: true, code, stdout, stderr } ==> r matches Ok(
            out,
        ) && out@ == stdout@),
        (outcome matches ProcOutcome::Exited { success: false, code, stdout, stderr }
            ==> r matches Err(ElevationError::CommandFailed { program: ep, code: ec, message: em })
            && ep@ == program@ && ec as int == spec_exit_code(code) && em@ == stderr@),
{
    match outcome {
        ProcOutcome::Failed { stage: _, reason } => Err(
            ElevationError::ExecutionFailed { program: program.to_owned(), reason },
        ),
        ProcOutcome::Exited { success, code, stdout, stderr } => {
            if success {
                Ok(stdout)
            } else {
                Err(
                    ElevationError::CommandFailed {
                        program: program.to_owned(),
                        code: exit_code_or_sentinel(code),
                        message: stderr,
                    },
                )
            }
        },
    }
}

} // verus!
