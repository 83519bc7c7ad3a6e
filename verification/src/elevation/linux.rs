//! The Linux elevator: pkexec when it is on the PATH, else sudo with a
//! passwordless first attempt and an interactive fallback.  The command
//! lines and the classification of every helper outcome are verified;
//! the application spawns the processes.
//!
//! The sudo path may execute the target twice (the passwordless attempt
//! may have partially run before failing), so it is only safe for
//! idempotent target commands; the retry decision is kept as an explicit
//! verdict so that callers see it.

use vstd::prelude::*;
use vstd::string::StringExecFns;

use crate::elevation::command::{
    clone_string_vec, exit_code_or_sentinel, spec_exit_code, CommandSpec, ProcOutcome, SpawnStage,
};
use crate::elevation::error::ElevationError;
use crate::pkexec::which_lookup;
use crate::strings::{spec_contains, str_contains};

verus! {

/// How one elevation request proceeds on Linux: through pkexec, or
/// through sudo in up to two attempts, or not at all.
#[derive(Debug, Clone, PartialEq)]
pub enum LinuxPlan {
    /// Run pkexec with the target command appended.
    Pkexec(CommandSpec),
    /// Run sudo: `first` is the non-interactive attempt, `second` the
    /// interactive fallback, to be run only when the first outcome shows
    /// that credentials were the only obstacle.
    Sudo {
        /// The `sudo -n` invocation tried first.
        first: CommandSpec,
        /// The interactive invocation, same command without `-n`.
        second: CommandSpec,
    },
}

/// `c` invokes pkexec on the target command, with no environment
/// overrides.
pub open spec fn spec_pkexec_command(
    program: Seq<char>,
    args: Seq<Seq<char>>,
    c: CommandSpec,
) -> bool {
    &&& c.program@ == "pkexec"@
    &&& c.args.deep_view() == seq![program] + args
    &&& c.env@ == Seq::<(String, String)>::empty()
}

/// The environment forces the C locale so sudo's error text is
/// predictable.
pub open spec fn spec_c_locale_env(env: Seq<(String, String)>) -> bool {
    &&& env.len() == 2
    &&& env[0].0@ == "LC_ALL"@
    &&& env[0].1@ == "C"@
    &&& env[1].0@ == "LANG"@
    &&& env[1].1@ == "C"@
}

/// `c` invokes sudo on the target command, non-interactively when
/// `non_interactive` holds, with the C locale forced.
pub open spec fn spec_sudo_command(
    program: Seq<char>,
    args: Seq<Seq<char>>,
    non_interactive: bool,
    c: CommandSpec,
) -> bool {
    &&& c.program@ == "sudo"@
    &&& c.args.deep_view() == (if non_interactive {
        seq!["-n"@]
    } else {
        Seq::<Seq<char>>::empty()
    }) + seq![program] + args
    &&& spec_c_locale_env(c.env@)
}

/// Builds the pkexec invocation of `program` with `args`.
pub fn pkexec_command(program: &str, args: &Vec<String>) -> (c: CommandSpec)
    ensures
        spec_pkexec_command(program@, args.deep_view(), c),
{
    let mut a: Vec<String> = Vec::new();
    a.push(program.to_owned());
    let mut rest = clone_string_vec(args);
    a.append(&mut rest);
    let c = CommandSpec { program: "pkexec".to_owned(), args: a, env: Vec::new() };
    proof {
        assert(c.args.deep_view() =~= seq![program@] + args.deep_view());
        assert(c.env@ =~= Seq::<(String, String)>::empty());
    }
    c
}

/// Builds the sudo invocation of `program` with `args`, with `-n` when
/// `non_interactive` holds, forcing the C locale.
pub fn sudo_command(program: &str, args: &Vec<String>, non_interactive: bool) -> (c: CommandSpec)
    ensures
        spec_sudo_command(program@, args.deep_view(), non_interactive, c),
{
    let mut a: Vec<String> = Vec::new();
    if non_interactive {
        a.push("-n".to_owned());
    }
    a.push(program.to_owned());
    let mut rest = clone_string_vec(args);
    a.append(&mut rest);
    let mut env: Vec<(String, String)> = Vec::new();
    env.push(("LC_ALL".to_owned(), "C".to_owned()));
    env.push(("LANG".to_owned(), "C".to_owned()));
    let c = CommandSpec { program: "sudo".to_owned(), args: a, env };
    proof {
        if non_interactive {
            assert(c.args.deep_view() =~= seq!["-n"@] + seq![program@] + args.deep_view());
        } else {
            assert(c.args.deep_view() =~= Seq::<Seq<char>>::empty() + seq![program@]
                + args.deep_view());
        }
    }
    c
}

/// The plan for elevating on Linux when pkexec and sudo availability are
/// known: pkexec wins, sudo is the fallback, and with neither on the
/// PATH the request fails with `ElevationToolNotFound` naming both.
pub fn linux_plan_for_tools(
    program: &str,
    args: &Vec<String>,
    pkexec_available: bool,
    sudo_available: bool,
) -> (r: Result<LinuxPlan, ElevationError>)
    ensures
        r is Ok <==> (pkexec_available || sudo_available),
        pkexec_available ==> (r matches Ok(LinuxPlan::Pkexec(c)) && spec_pkexec_command(
            program@,
            args.deep_view(),
            c,
        )),
        !pkexec_available && sudo_available ==> (r matches Ok(LinuxPlan::Sudo { first, second })
            && spec_sudo_command(program@, args.deep_view(), true, first) && spec_sudo_command(
            program@,
            args.deep_view(),
            false,
            second,
        )),
        r matches Err(e) ==> e matches ElevationError::ElevationToolNotFound {
            platform: p,
            tools: t,
        } && p@ == "Linux"@ && t.deep_view() =~= seq!["pkexec"@, "sudo"@],
{
    if pkexec_available {
        Ok(LinuxPlan::Pkexec(pkexec_command(program, args)))
    } else if sudo_available {
        let first = sudo_command(program, args, true);
        let second = sudo_command(program, args, false);
        Ok(LinuxPlan::Sudo { first, second })
    } else {
        let mut tools: Vec<String> = Vec::new();
        tools.push("pkexec".to_owned());
        tools.push("sudo".to_owned());
        proof {
            assert(tools.deep_view() =~= seq!["pkexec"@, "sudo"@]);
        }
        Err(ElevationError::ElevationToolNotFound { platform: "Linux".to_owned(), tools })
    }
}

/// `plan` is one of the two exact shapes a Linux elevation plan can
/// take: a pkexec invocation, or the sudo attempt pair.
pub open spec fn spec_linux_plan_shape(
    program: Seq<char>,
    args: Seq<Seq<char>>,
    plan: LinuxPlan,
) -> bool {
    ||| (plan matches LinuxPlan::Pkexec(c) && spec_pkexec_command(program, args, c))
    ||| (plan matches LinuxPlan::Sudo { first, second } && spec_sudo_command(
        program,
        args,
        true,
        first,
    ) && spec_sudo_command(program, args, false, second))
}

/// `e` reports that neither pkexec nor sudo was found on the PATH.
pub open spec fn spec_tool_not_found(e: ElevationError) -> bool {
    e matches ElevationError::ElevationToolNotFound { platform, tools } && platform@ == "Linux"@
        && tools.deep_view() =~= seq!["pkexec"@, "sudo"@]
}

/// Plans the elevation of `program` with `args` on Linux, probing the
/// PATH for pkexec and sudo.  Which helper is chosen depends on what the
/// PATH holds; whichever it is, the plan has the exact shape
/// `linux_plan_for_tools` guarantees.
pub fn linux_elevation_plan(program: &str, args: &Vec<String>) -> (r: Result<
    LinuxPlan,
    ElevationError,
>)
    ensures
        r matches Ok(plan) ==> spec_linux_plan_shape(program@, args.deep_view(), plan),
        r matches Err(e) ==> spec_tool_not_found(e),
{
    let pkexec_available = which_lookup("pkexec").is_ok();
    let sudo_available = which_lookup("sudo").is_ok();
    linux_plan_for_tools(program, args, pkexec_available, sudo_available)
}

/// Classifies the outcome of the pkexec invocation.  Exit code 126 is
/// pkexec's specific signal that the user declined the authentication
/// prompt, and maps to `ElevationDenied` and nothing else; any other
/// non-zero exit is a `CommandFailed` carrying stderr.  A launch failure
/// names pkexec itself, a wait failure names the target program.
pub fn classify_pkexec_outcome(program: &str, outcome: ProcOutcome) -> (r: Result<
    String,
    ElevationError,
>)
    ensures
        (outcome matches ProcOutcome::Failed { stage: SpawnStage::Launch, reason } ==> r matches Err(
            ElevationError::ExecutionFailed { program: ep, reason: er },
        ) && ep@ == "pkexec"@ && er@ == reason@),
        (outcome matches ProcOutcome::Failed { stage: SpawnStage::Wait, reason } ==> r matches Err(
            ElevationError::ExecutionFailed { program: ep, reason: er },
        ) && ep@ == program@ && er@ == reason@),
        (outcome matches ProcOutcome::Exited { success: true, code, stdout, stderr } ==> r matches Ok(
            out,
        ) && out@ == stdout@),
        (outcome matches ProcOutcome::Exited { success: false, code, stdout, stderr } ==> {
            if code == Some(126i32) {
                r == Result::<String, ElevationError>::Err(ElevationError::ElevationDenied)
            } else {
                r matches Err(ElevationError::CommandFailed { program: ep, code: ec, message: em })
                    && ep@ == program@ && ec as int == spec_exit_code(code) && em@ == stderr@
            }
        }),
{
    match outcome {
        ProcOutcome::Failed { stage, reason } => {
            let name = match stage {
                SpawnStage::Launch => "pkexec".to_owned(),
                SpawnStage::Wait => program.to_owned(),
            };
            Err(ElevationError::ExecutionFailed { program: name, reason })
        },
        ProcOutcome::Exited { success, code, stdout, stderr } => {
            if success {
                Ok(stdout)
            } else if matches!(code, Some(126i32)) {
                Err(ElevationError::ElevationDenied)
            } else {
                Err(
                    ElevationError::CommandFailed {
                        program: program.to_owned(),
                        code: exit_code_or_sentinel(code),
                        message: stderr,
                    },
                )
            }
        },
    }
}

/// The first sudo attempt's outcome shows that credentials were the only
/// obstacle: sudo exits 1 on authentication failures, and in the forced
/// C locale prints one of two known phrases.
pub open spec fn spec_sudo_auth_failure(code: Option<i32>, stderr: Seq<char>) -> bool {
    ||| spec_exit_code(code) == 1
    ||| spec_contains(stderr, "a password is required"@)
    ||| spec_contains(stderr, "no tty present"@)
}

/// What the first (passwordless) sudo attempt decided.
#[derive(Debug, PartialEq)]
pub enum SudoVerdict {
    /// The first attempt settled the request: its result stands and no
    /// second attempt may run.
    Settled(Result<String, ElevationError>),
    /// Credentials were the only obstacle: run the same command again,
    /// interactively.
    RetryInteractively,
}

/// Classifies the outcome of the passwordless (`-n`) sudo attempt.  A
/// success stands; an authentication failure (exit 1, or a known stderr
/// phrase) calls for exactly one interactive retry; any other failure is
/// returned at once as `CommandFailed`, with no retry.  A spawn or wait
/// failure also falls through to the interactive attempt.
pub fn classify_sudo_first_outcome(program: &str, outcome: ProcOutcome) -> (r: SudoVerdict)
    ensures
        (outcome matches ProcOutcome::Failed { stage, reason } ==> r is RetryInteractively),
        (outcome matches ProcOutcome::Exited { success: true, code, stdout, stderr } ==> r matches SudoVerdict::Settled(
            Ok(out),
        ) && out@ == stdout@),
        (outcome matches ProcOutcome::Exited { success: false, code, stdout, stderr } ==> {
            if spec_sudo_auth_failure(code, stderr@) {
                r is RetryInteractively
            } else {
                r matches SudoVerdict::Settled(
                    Err(ElevationError::CommandFailed { program: ep, code: ec, message: em }),
                ) && ep@ == program@ && ec as int == spec_exit_code(code) && em@ == stderr@
            }
        }),
{
    match outcome {
        ProcOutcome::Failed { stage: _, reason: _ } => SudoVerdict::RetryInteractively,
        ProcOutcome::Exited { success, code, stdout, stderr } => {
            if success {
                SudoVerdict::Settled(Ok(stdout))
            } else {
                let exit_code = exit_code_or_sentinel(code);
                let is_auth_failure = exit_code == 1i32 || str_contains_stderr(
                    &stderr,
                    "a password is required",
                ) || str_contains_stderr(&stderr, "no tty present");
                if is_auth_failure {
                    SudoVerdict::RetryInteractively
                } else {
                    SudoVerdict::Settled(
                        Err(
                            ElevationError::CommandFailed {
                                program: program.to_owned(),
                                code: exit_code,
                                message: stderr,
                            },
                        ),
                    )
                }
            }
        },
    }
}

fn str_contains_stderr(stderr: &String, phrase: &str) -> (r: bool)
    ensures
        r == spec_contains(stderr@, phrase@),
{
    str_contains(stderr.as_str(), phrase)
}

/// Classifies the outcome of the interactive sudo attempt.  Stderr
/// containing "no tty present" means the prompt could not even be shown
/// and maps to `ElevationDenied`; any other non-zero exit is
/// `CommandFailed`.  A launch failure names sudo itself, a wait failure
/// names the target program.
pub fn classify_sudo_second_outcome(program: &str, outcome: ProcOutcome) -> (r: Result<
    String,
    ElevationError,
>)
    ensures
        (outcome matches ProcOutcome::Failed { stage: SpawnStage::Launch, reason } ==> r matches Err(
            ElevationError::ExecutionFailed { program: ep, reason: er },
        ) && ep@ == "sudo"@ && er@ == reason@),
        (outcome matches ProcOutcome::Failed { stage: SpawnStage::Wait, reason } ==> r matches Err(
            ElevationError::ExecutionFailed { program: ep, reason: er },
        ) && ep@ == program@ && er@ == reason@),
        (outcome matches ProcOutcome::Exited { success: true, code, stdout, stderr } ==> r matches Ok(
            out,
        ) && out@ == stdout@),
        (outcome matches ProcOutcome::Exited { success: false, code, stdout, stderr } ==> {
            if spec_contains(stderr@, "no tty present"@) {
                r == Result::<String, ElevationError>::Err(ElevationError::ElevationDenied)
            } else {
                r matches Err(ElevationError::CommandFailed { program: ep, code: ec, message: em })
                    && ep@ == program@ && ec as int == spec_exit_code(code) && em@ == stderr@
            }
        }),
{
    match outcome {
        ProcOutcome::Failed { stage, reason } => {
            let name = match stage {
                SpawnStage::Launch => "sudo".to_owned(),
                SpawnStage::Wait => program.to_owned(),
            };
            Err(ElevationError::ExecutionFailed { program: name, reason })
        },
        ProcOutcome::Exited { success, code, stdout, stderr } => {
            if success {
                Ok(stdout)
            } else if str_contains_stderr(&stderr, "no tty present") {
                Err(ElevationError::ElevationDenied)
            } else {
                Err(
                    ElevationError::CommandFailed {
                        program: program.to_owned(),
                        code: exit_code_or_sentinel(code),
                        message: stderr,
                    },
                )
            }
        },
    }
}

} // verus!
