//! The Windows elevator: the target command is escaped for PowerShell's
//! single-quote literals and wrapped in a `Start-Process -Verb RunAs`
//! launcher that triggers the UAC consent prompt, waits for completion
//! and keeps the elevated window hidden.  A UAC-elevated process cannot
//! share the parent's standard streams, so its output is redirected to a
//! uniquely-named temporary file that the application creates before the
//! launch and removes on every exit path; reading it back is retried a
//! bounded number of times to ride out filesystem write latency.

use vstd::prelude::*;
use vstd::string::StringExecFns;

use crate::elevation::command::{
    clone_string_vec, exit_code_or_sentinel, spec_exit_code, CommandSpec, ProcOutcome,
};
use crate::elevation::error::ElevationError;
use crate::strings::{chars_of, push_char, spec_join};

verus! {

/// How one character is written inside a PowerShell single-quote
/// literal: a single quote is doubled, everything else stands for
/// itself.
pub open spec fn spec_ps_escape_char(c: char) -> Seq<char> {
    if c == '\'' {
        seq!['\'', '\'']
    } else {
        seq![c]
    }
}

/// `s` with every character escaped for a PowerShell single-quote
/// literal.
pub open spec fn spec_ps_escaped(s: Seq<char>) -> Seq<char>
    decreases s.len(),
{
    if s.len() == 0 {
        Seq::empty()
    } else {
        spec_ps_escape_char(s.first()) + spec_ps_escaped(s.drop_first())
    }
}

/// The PowerShell single-quote literal denoting `s`.
pub open spec fn spec_ps_arg(s: Seq<char>) -> Seq<char> {
    seq!['\''] + spec_ps_escaped(s) + seq!['\'']
}

proof fn lemma_ps_escaped_push(s: Seq<char>, c: char)
    ensures
        spec_ps_escaped(s.push(c)) == spec_ps_escaped(s) + spec_ps_escape_char(c),
    decreases s.len(),
{
    if s.len() == 0 {
        assert(s.push(c).drop_first() =~= s);
        assert(s.push(c).first() == c);
        assert(spec_ps_escaped(s.push(c)) == spec_ps_escape_char(c) + spec_ps_escaped(s));
        assert(spec_ps_escaped(s) =~= Seq::<char>::empty());
        assert(spec_ps_escape_char(c) + spec_ps_escaped(s) =~= spec_ps_escaped(s)
            + spec_ps_escape_char(c));
    } else {
        assert(s.push(c).drop_first() =~= s.drop_first().push(c));
        assert(s.push(c).first() == s.first());
        lemma_ps_escaped_push(s.drop_first(), c);
        assert(spec_ps_escaped(s.push(c)) == spec_ps_escape_char(s.first()) + (spec_ps_escaped(
            s.drop_first(),
        ) + spec_ps_escape_char(c)));
        assert(spec_ps_escape_char(s.first()) + (spec_ps_escaped(s.drop_first())
            + spec_ps_escape_char(c)) =~= (spec_ps_escape_char(s.first()) + spec_ps_escaped(
            s.drop_first(),
        )) + spec_ps_escape_char(c));
        assert(spec_ps_escape_char(s.first()) + spec_ps_escaped(s.drop_first()) == spec_ps_escaped(
            s,
        ));
    }
}

/// Escapes a string as a PowerShell single-quote literal, doubling any
/// embedded single quotes.
pub fn escape_ps_arg(arg: &str) -> (r: String)
    ensures
        r@ == spec_ps_arg(arg@),
{
    let cs = chars_of(arg);
    let mut out = String::new();
    push_char(&mut out, '\'');
    let mut i: usize = 0;
    while i < cs.len()
        invariant
            i <= cs@.len(),
            cs@ == arg@,
            out@ == seq!['\''] + spec_ps_escaped(arg@.subrange(0, i as int)),
        decreases cs@.len() - i,
    {
        let c = cs[i];
        if c == '\'' {
            push_char(&mut out, '\'');
            push_char(&mut out, '\'');
        } else {
            push_char(&mut out, c);
        }
        proof {
            let prefix = arg@.subrange(0, i as int);
            lemma_ps_escaped_push(prefix, arg@[i as int]);
            assert(prefix.push(arg@[i as int]) =~= arg@.subrange(0, i + 1));
            assert(out@ =~= seq!['\''] + spec_ps_escaped(arg@.subrange(0, i + 1)));
        }
        i = i + 1;
    }
    push_char(&mut out, '\'');
    proof {
        assert(arg@.subrange(0, arg@.len() as int) =~= arg@);
        assert(out@ =~= spec_ps_arg(arg@));
    }
    out
}

/// An elevation request waiting for its temporary output file: the
/// launcher command line can only be built once the application has
/// created the file and knows its path.
#[derive(Debug, Clone, PartialEq)]
pub struct WindowsRequest {
    /// Name or path of the program to elevate.
    pub program: String,
    /// Command-line arguments, in order.
    pub args: Vec<String>,
}

/// Captures `program` and `args` for the Windows elevator.
pub fn windows_request(program: &str, args: &Vec<String>) -> (r: WindowsRequest)
    ensures
        r.program@ == program@,
        r.args@ == args@,
{
    WindowsRequest { program: program.to_owned(), args: clone_string_vec(args) }
}

/// The redirection clause sending all of the elevated command's output
/// to the temporary file.
pub open spec fn spec_redirect(temp_path: Seq<char>) -> Seq<char> {
    "*>&1 | Out-File -FilePath "@ + spec_ps_arg(temp_path) + " -Encoding UTF8"@
}

/// The escaped arguments joined by single spaces.
pub open spec fn spec_ps_args_joined(args: Seq<Seq<char>>) -> Seq<char> {
    spec_join(args.map_values(|a: Seq<char>| spec_ps_arg(a)), " "@)
}

/// The command PowerShell runs elevated: the escaped program, the
/// redirection, the escaped arguments, and an exit passing the
/// command's code through.
pub open spec fn spec_elevated_ps(
    program: Seq<char>,
    args: Seq<Seq<char>>,
    temp_path: Seq<char>,
) -> Seq<char> {
    "& "@ + spec_ps_arg(program) + " "@ + (if args.len() == 0 {
        spec_redirect(temp_path)
    } else {
        spec_redirect(temp_path) + " "@ + spec_ps_args_joined(args)
    }) + "; exit $LASTEXITCODE"@
}

/// The unelevated launcher script: starts an elevated PowerShell on the
/// command, asking for elevation (`-Verb RunAs`), waiting for it and
/// hiding its window.
pub open spec fn spec_windows_script(
    program: Seq<char>,
    args: Seq<Seq<char>>,
    temp_path: Seq<char>,
) -> Seq<char> {
    "Start-Process powershell -ArgumentList '-NoProfile', '-Command', "@ + spec_ps_arg(
        spec_elevated_ps(program, args, temp_path),
    ) + " -Verb RunAs -Wait -WindowStyle Hidden"@
}

/// `c` invokes `powershell -NoProfile -Command` on the launcher script,
/// with no environment overrides.
pub open spec fn spec_windows_command_ok(
    program: Seq<char>,
    args: Seq<Seq<char>>,
    temp_path: Seq<char>,
    c: CommandSpec,
) -> bool {
    &&& c.program@ == "powershell"@
    &&& c.args.deep_view() == seq!["-NoProfile"@, "-Command"@, spec_windows_script(
        program,
        args,
        temp_path,
    )]
    &&& c.env@ == Seq::<(String, String)>::empty()
}

/// Builds the launcher invocation for `request`, redirecting the
/// elevated command's output to the file at `temp_path`.
pub fn windows_launcher_command(request: &WindowsRequest, temp_path: &str) -> (c: CommandSpec)
    ensures
        spec_windows_command_ok(request.program@, request.args.deep_view(), temp_path@, c),
{
    let escaped_program = escape_ps_arg(request.program.as_str());
    let temp_file_escaped = escape_ps_arg(temp_path);

    let mut redirect = String::new();
    redirect.append("*>&1 | Out-File -FilePath ");
    redirect.append(temp_file_escaped.as_str());
    redirect.append(" -Encoding UTF8");
    proof {
        assert(redirect@ =~= spec_redirect(temp_path@));
    }

    let ghost gargs = request.args.deep_view();
    let mut escaped_args: Vec<String> = Vec::new();
    let mut i: usize = 0;
    while i < request.args.len()
        invariant
            i <= request.args@.len(),
            gargs == request.args.deep_view(),
            gargs.len() == request.args@.len(),
            forall|j: int| 0 <= j < request.args@.len() ==> gargs[j] == request.args@[j]@,
            escaped_args@.len() == i,
            forall|j: int| 0 <= j < i ==> escaped_args@[j]@ == spec_ps_arg(gargs[j]),
        decreases request.args@.len() - i,
    {
        let e = escape_ps_arg(request.args[i].as_str());
        escaped_args.push(e);
        proof {
            assert(escaped_args@[i as int] == e);
        }
        i = i + 1;
    }
    proof {
        assert forall|j: int| 0 <= j < gargs.len() implies escaped_args.deep_view()[j]
            == spec_ps_arg(gargs[j]) by {
            assert(escaped_args.deep_view()[j] == escaped_args@[j].deep_view());
        }
        assert(escaped_args.deep_view() =~= gargs.map_values(|a: Seq<char>| spec_ps_arg(a)));
    }

    let mut elevated_ps = String::new();
    elevated_ps.append("& ");
    elevated_ps.append(escaped_program.as_str());
    elevated_ps.append(" ");
    elevated_ps.append(redirect.as_str());
    if escaped_args.len() > 0 {
        elevated_ps.append(" ");
        let joined = crate::strings::join_strings(&escaped_args, " ");
        elevated_ps.append(joined.as_str());
    }
    elevated_ps.append("; exit $LASTEXITCODE");
    proof {
        assert(elevated_ps@ =~= spec_elevated_ps(request.program@, gargs, temp_path@));
    }

    let escaped_elevated = escape_ps_arg(elevated_ps.as_str());
    let mut ps_script = String::new();
    ps_script.append("Start-Process powershell -ArgumentList '-NoProfile', '-Command', ");
    ps_script.append(escaped_elevated.as_str());
    ps_script.append(" -Verb RunAs -Wait -WindowStyle Hidden");
    proof {
        assert(ps_script@ =~= spec_windows_script(request.program@, gargs, temp_path@));
    }

    let mut ps_args: Vec<String> = Vec::new();
    ps_args.push("-NoProfile".to_owned());
    ps_args.push("-Command".to_owned());
    ps_args.push(ps_script);
    let c = CommandSpec { program: "powershell".to_owned(), args: ps_args, env: Vec::new() };
    proof {
        assert(c.args.deep_view() =~= seq!["-NoProfile"@, "-Command"@, spec_windows_script(
            request.program@,
            gargs,
            temp_path@,
        )]);
        assert(c.env@ =~= Seq::<(String, String)>::empty());
    }
    c
}

/// What the launcher's exit means for the request.
#[derive(Debug, Clone, PartialEq)]
pub enum WindowsVerdict {
    /// The launcher reported success: collect the elevated command's
    /// output from the temporary file, with the bounded `OutputPoll`.
    CollectOutput,
    /// The request failed; the error is final.
    Failed(ElevationError),
}

/// The error message for a failed elevated run: the temporary file's
/// content when it holds any, else the launcher's stderr when it holds
/// any, else a fixed sentence naming the likeliest cause.
pub open spec fn spec_windows_failure_message(temp: Seq<char>, stderr: Seq<char>) -> Seq<char> {
    if temp.len() > 0 {
        temp
    } else if stderr.len() > 0 {
        stderr
    } else {
        "Command failed with no error output (possibly elevation denied)"@
    }
}

/// Classifies the launcher's outcome.  Success means the elevated
/// command's output is in the temporary file; failure prefers that
/// file's content as the error message, then stderr, then a generic
/// sentence; a spawn or wait failure is `ExecutionFailed` naming the
/// target program.
pub fn classify_windows_outcome(program: &str, outcome: ProcOutcome, temp_content: String) -> (r:
    WindowsVerdict)
    ensures
        (outcome matches ProcOutcome::Failed { stage, reason } ==> r matches WindowsVerdict::Failed(
            ElevationError::ExecutionFailed { program: ep, reason: er },
        ) && ep@ == program@ && er@ == reason@),
        (outcome matches ProcOutcome::Exited { success: true, code, stdout, stderr }
            ==> r is CollectOutput),
        (outcome matches ProcOutcome::Exited { success: false, code, stdout, stderr }
            ==> r matches WindowsVerdict::Failed(
            ElevationError::CommandFailed { program: ep, code: ec, message: em },
        ) && ep@ == program@ && ec as int == spec_exit_code(code) && em@
            == spec_windows_failure_message(temp_content@, stderr@)),
{
    match outcome {
        ProcOutcome::Failed { stage: _, reason } => WindowsVerdict::Failed(
            ElevationError::ExecutionFailed { program: program.to_owned(), reason },
        ),
        ProcOutcome::Exited { success, code, stdout: _, stderr } => {
            if success {
                WindowsVerdict::CollectOutput
            } else {
                let message = if temp_content.as_str().is_empty() {
                    if stderr.as_str().is_empty() {
                        "Command failed with no error output (possibly elevation denied)".to_owned()
                    } else {
                        stderr
                    }
                } else {
                    temp_content
                };
                WindowsVerdict::Failed(
                    ElevationError::CommandFailed {
                        program: program.to_owned(),
                        code: exit_code_or_sentinel(code),
                        message,
                    },
                )
            }
        },
    }
}

/// The number of times the temporary file is read before its content is
/// accepted even when empty.
pub open spec fn spec_poll_budget() -> int {
    10
}

/// The bounded poll for the elevated command's output: the temporary
/// file is read up to ten times, a short sleep apart, until its content
/// becomes non-empty; when the budget runs out the last (empty) read is
/// accepted as genuinely empty successful output, never as an error.
#[derive(Debug, Clone, Copy, PartialEq, Eq, Structural)]
pub struct OutputPoll {
    /// How many reads may still be offered, the current one included.
    pub attempts_left: u8,
}

impl OutputPoll {
    /// Starts a poll with the full read budget.
    pub fn new() -> (p: OutputPoll)
        ensures
            p.attempts_left == spec_poll_budget(),
    {
        OutputPoll { attempts_left: 10 }
    }

    /// Offers one read of the temporary file.  Non-empty content is
    /// accepted at once; empty content is accepted only on the last
    /// allowed read, else the caller is told to read again after a
    /// short delay.
    pub fn offer(&mut self, content: String) -> (r: Option<String>)
        requires
            old(self).attempts_left >= 1,
        ensures
            content@.len() > 0 ==> (r matches Some(out) && out@ == content@),
            content@.len() == 0 && old(self).attempts_left == 1 ==> (r matches Some(out) && out@
                == content@),
            content@.len() == 0 && old(self).attempts_left > 1 ==> r is None
                && final(self).attempts_left == old(self).attempts_left - 1,
    {
        if !content.as_str().is_empty() {
            Some(content)
        } else if self.attempts_left == 1 {
            Some(content)
        } else {
            self.attempts_left = self.attempts_left - 1;
            None
        }
    }
}

/// The output the poll settles on for a given sequence of reads and a
/// given budget: the first non-empty read, or the read on which the
/// budget ran out, or empty text when there were no reads at all.
pub open spec fn spec_poll_result(reads: Seq<Seq<char>>, budget: int) -> Seq<char>
    decreases reads.len(),
{
    if reads.len() == 0 {
        Seq::empty()
    } else if reads.first().len() > 0 || budget <= 1 {
        reads.first()
    } else {
        spec_poll_result(reads.drop_first(), budget - 1)
    }
}

/// Empty-output tolerance: if the temporary file never becomes
/// non-empty, whatever the budget, the poll settles on empty text — the
/// elevator then returns success with empty output rather than failing.
pub proof fn lemma_windows_empty_output_tolerance(reads: Seq<Seq<char>>, budget: int)
    requires
        forall|i: int| 0 <= i < reads.len() ==> reads[i].len() == 0,
    ensures
        spec_poll_result(reads, budget).len() == 0,
    decreases reads.len(),
{
    if reads.len() > 0 {
        assert(reads.first() == reads[0]);
        if !(reads.first().len() > 0 || budget <= 1) {
            assert(forall|i: int|
                0 <= i < reads.drop_first().len() ==> reads.drop_first()[i] == reads[i + 1]);
            lemma_windows_empty_output_tolerance(reads.drop_first(), budget - 1);
        }
    }
}

} // verus!
