//! The macOS elevator: the target command is shell-quoted word by word,
//! embedded in an AppleScript string literal, and run "with
//! administrator privileges" through `osascript`, which shows the
//! system's authentication dialog.
//!
//! This path does not distinguish a cancelled prompt from other
//! scripting-engine failures; both surface as `CommandFailed` or
//! `ExecutionFailed`.  Outcomes are classified exactly as the direct
//! runner's are (`classify_direct_outcome`).

use vstd::prelude::*;
use vstd::string::StringExecFns;

use crate::elevation::command::CommandSpec;
use crate::elevation::error::ElevationError;
use crate::strings::{chars_of, join_strings, push_char, spec_join};

verus! {

/// What `shlex::try_quote` returns for a word: a string a POSIX shell
/// reads back as exactly that word.
pub uninterp spec fn sh_quoted(s: Seq<char>) -> Seq<char>;

/// Relies on `shlex::try_quote`: encodes one word so a POSIX shell
/// reads it back as exactly that word.  It fails exactly when the word
/// contains a nul byte, which no quoting can carry through a shell, and
/// its error text is that one fixed sentence.
#[verifier::external_body]
fn sh_quote(s: &str) -> (r: Result<String, String>)
    ensures
        r is Ok <==> !s@.contains('\0'),
        r matches Ok(q) ==> q@ == sh_quoted(s@),
        r matches Err(m) ==> m@ == "cannot shell-quote string containing nul byte"@,
{
    match shlex::try_quote(s) {
        Ok(q) => Ok(q.into_owned()),
        Err(e) => Err(e.to_string()),
    }
}

/// How one character is written inside an AppleScript string literal:
/// backslash, double quote, newline, carriage return and tab get a
/// backslash escape; everything else stands for itself.
pub open spec fn spec_applescript_escape_char(c: char) -> Seq<char> {
    if c == '\\' {
        seq!['\\', '\\']
    } else if c == '"' {
        seq!['\\', '"']
    } else if c == '\n' {
        seq!['\\', 'n']
    } else if c == '\r' {
        seq!['\\', 'r']
    } else if c == '\t' {
        seq!['\\', 't']
    } else {
        seq![c]
    }
}

/// `s` with every character escaped for an AppleScript string literal.
pub open spec fn spec_applescript_escaped(s: Seq<char>) -> Seq<char>
    decreases s.len(),
{
    if s.len() == 0 {
        Seq::empty()
    } else {
        spec_applescript_escape_char(s.first()) + spec_applescript_escaped(s.drop_first())
    }
}

/// The AppleScript string literal denoting `s`: the escaped text
/// wrapped in double quotes.
pub open spec fn spec_applescript_literal(s: Seq<char>) -> Seq<char> {
    seq!['"'] + spec_applescript_escaped(s) + seq!['"']
}

proof fn lemma_applescript_escaped_push(s: Seq<char>, c: char)
    ensures
        spec_applescript_escaped(s.push(c)) == spec_applescript_escaped(s)
            + spec_applescript_escape_char(c),
    decreases s.len(),
{
    if s.len() == 0 {
        assert(s.push(c).drop_first() =~= s);
        assert(s.push(c).first() == c);
        assert(spec_applescript_escaped(s.push(c)) == spec_applescript_escape_char(c)
            + spec_applescript_escaped(s));
        assert(spec_applescript_escaped(s) =~= Seq::<char>::empty());
        assert(spec_applescript_escape_char(c) + spec_applescript_escaped(s)
            =~= spec_applescript_escaped(s) + spec_applescript_escape_char(c));
    } else {
        assert(s.push(c).drop_first() =~= s.drop_first().push(c));
        assert(s.push(c).first() == s.first());
        lemma_applescript_escaped_push(s.drop_first(), c);
        assert(spec_applescript_escaped(s.push(c)) == spec_applescript_escape_char(s.first()) + (
        spec_applescript_escaped(s.drop_first()) + spec_applescript_escape_char(c)));
        assert(spec_applescript_escape_char(s.first()) + (spec_applescript_escaped(s.drop_first())
            + spec_applescript_escape_char(c)) =~= (spec_applescript_escape_char(s.first())
            + spec_applescript_escaped(s.drop_first())) + spec_applescript_escape_char(c));
        assert(spec_applescript_escape_char(s.first()) + spec_applescript_escaped(s.drop_first())
            == spec_applescript_escaped(s));
    }
}

/// Escapes a shell command line for embedding in an AppleScript string
/// literal and wraps it in the literal's double quotes.
pub fn escape_for_applescript(s: &str) -> (r: String)
    ensures
        r@ == spec_applescript_literal(s@),
{
    let cs = chars_of(s);
    let mut out = String::new();
    push_char(&mut out, '"');
    let mut i: usize = 0;
    while i < cs.len()
        invariant
            i <= cs@.len(),
            cs@ == s@,
            out@ == seq!['"'] + spec_applescript_escaped(s@.subrange(0, i as int)),
        decreases cs@.len() - i,
    {
        let c = cs[i];
        if c == '\\' {
            push_char(&mut out, '\\');
            push_char(&mut out, '\\');
        } else if c == '"' {
            push_char(&mut out, '\\');
            push_char(&mut out, '"');
        } else if c == '\n' {
            push_char(&mut out, '\\');
            push_char(&mut out, 'n');
        } else if c == '\r' {
            push_char(&mut out, '\\');
            push_char(&mut out, 'r');
        } else if c == '\t' {
            push_char(&mut out, '\\');
            push_char(&mut out, 't');
        } else {
            push_char(&mut out, c);
        }
        proof {
            let prefix = s@.subrange(0, i as int);
            lemma_applescript_escaped_push(prefix, s@[i as int]);
            assert(prefix.push(s@[i as int]) =~= s@.subrange(0, i + 1));
            assert(out@ =~= seq!['"'] + spec_applescript_escaped(s@.subrange(0, i + 1)));
        }
        i = i + 1;
    }
    push_char(&mut out, '"');
    proof {
        assert(s@.subrange(0, s@.len() as int) =~= s@);
        assert(out@ =~= spec_applescript_literal(s@));
    }
    out
}

/// The shell words of the elevated command, each shell-quoted: the
/// program first, then the arguments in order.
pub open spec fn spec_quoted_parts(program: Seq<char>, args: Seq<Seq<char>>) -> Seq<Seq<char>> {
    seq![sh_quoted(program)] + args.map_values(|a: Seq<char>| sh_quoted(a))
}

/// The one-line AppleScript that runs the quoted command line with
/// administrator privileges.
pub open spec fn spec_macos_script(program: Seq<char>, args: Seq<Seq<char>>) -> Seq<char> {
    "do shell script "@ + spec_applescript_literal(
        spec_join(spec_quoted_parts(program, args), " "@),
    ) + " with administrator privileges"@
}

/// `c` invokes `osascript -e` on the administrator-privileges script
/// for `program` and `args`, with no environment overrides.
pub open spec fn spec_macos_command_ok(
    program: Seq<char>,
    args: Seq<Seq<char>>,
    c: CommandSpec,
) -> bool {
    &&& c.program@ == "osascript"@
    &&& c.args.deep_view() == seq!["-e"@, spec_macos_script(program, args)]
    &&& c.env@ == Seq::<(String, String)>::empty()
}

/// Neither the program name nor any argument holds a nul character, so
/// every word of the command can be shell-quoted.
pub open spec fn spec_macos_quotable(program: Seq<char>, args: Seq<Seq<char>>) -> bool {
    !program.contains('\0') && forall|i: int| 0 <= i < args.len() ==> !args[i].contains('\0')
}

/// `e` reports that a word of the command could not be shell-quoted.
pub open spec fn spec_macos_quote_error(program: Seq<char>, e: ElevationError) -> bool {
    e matches ElevationError::ExecutionFailed { program: ep, reason } && ep@ == program && reason@
        == "Shell quoting failed: "@ + "cannot shell-quote string containing nul byte"@
}

/// Builds the macOS elevation of `program` with `args`: shell-quotes
/// each word, joins them with single spaces, embeds the command line in
/// an AppleScript string literal and plans the `osascript` invocation.
/// Quoting fails exactly when a word holds a nul character; the failure
/// is reported as `ExecutionFailed` naming the target program.
pub fn macos_elevation_command(program: &str, args: &Vec<String>) -> (r: Result<
    CommandSpec,
    ElevationError,
>)
    ensures
        r is Ok <==> spec_macos_quotable(program@, args.deep_view()),
        r matches Ok(c) ==> spec_macos_command_ok(program@, args.deep_view(), c),
        r matches Err(e) ==> spec_macos_quote_error(program@, e),
{
    let mut parts: Vec<String> = Vec::new();
    match sh_quote(program) {
        Ok(q) => {
            parts.push(q);
        },
        Err(m) => {
            return Err(
                ElevationError::ExecutionFailed {
                    program: program.to_owned(),
                    reason: quoting_failure_reason(&m),
                },
            );
        },
    }
    let ghost gargs = args.deep_view();
    let mut i: usize = 0;
    while i < args.len()
        invariant
            i <= args@.len(),
            gargs == args.deep_view(),
            gargs.len() == args@.len(),
            forall|j: int| 0 <= j < args@.len() ==> gargs[j] == args@[j]@,
            forall|j: int| 0 <= j < i ==> !gargs[j].contains('\0'),
            parts@.len() == i + 1,
            parts.deep_view()[0] == sh_quoted(program@),
            forall|j: int| 0 <= j < i ==> parts.deep_view()[j + 1] == sh_quoted(gargs[j]),
        decreases args@.len() - i,
    {
        match sh_quote(args[i].as_str()) {
            Ok(q) => {
                parts.push(q);
            },
            Err(m) => {
                proof {
                    assert(gargs[i as int].contains('\0'));
                }
                return Err(
                    ElevationError::ExecutionFailed {
                        program: program.to_owned(),
                        reason: quoting_failure_reason(&m),
                    },
                );
            },
        }
        i = i + 1;
    }
    proof {
        assert(parts.deep_view() =~= spec_quoted_parts(program@, gargs));
    }
    let cmd_str = join_strings(&parts, " ");
    let escaped_cmd = escape_for_applescript(cmd_str.as_str());
    let mut script = String::new();
    script.append("do shell script ");
    script.append(escaped_cmd.as_str());
    script.append(" with administrator privileges");
    let mut osa_args: Vec<String> = Vec::new();
    osa_args.push("-e".to_owned());
    osa_args.push(script);
    let c = CommandSpec { program: "osascript".to_owned(), args: osa_args, env: Vec::new() };
    proof {
        assert(c.args.deep_view() =~= seq!["-e"@, spec_macos_script(program@, gargs)]);
        assert(c.env@ =~= Seq::<(String, String)>::empty());
    }
    Ok(c)
}

/// The reason text reported when shell quoting fails.
fn quoting_failure_reason(m: &String) -> (r: String)
    ensures
        r@ == "Shell quoting failed: "@ + m@,
{
    let mut r = String::new();
    r.append("Shell quoting failed: ");
    r.append(m.as_str());
    proof {
        assert(r@ =~= "Shell quoting failed: "@ + m@);
    }
    r
}

} // verus!
