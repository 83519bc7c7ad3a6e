//! The closed error taxonomy shared by every elevation path.  The five
//! variants are mutually exclusive and cover every documented failure;
//! no silent success-with-error-text case exists.

use vstd::prelude::*;
use vstd::string::StringExecFns;

use crate::strings::{push_dec_i32, spec_dec_i32, spec_join};

verus! {

/// Errors that can occur while running a command with elevated rights.
#[derive(Debug, Clone, PartialEq)]
pub enum ElevationError {
    /// The elevation helper or the target program could not be spawned
    /// at all.
    ExecutionFailed {
        /// The program that failed to execute (helper or target).
        program: String,
        /// Human-readable reason for the failure.
        reason: String,
    },
    /// The process ran but returned a non-zero exit status.
    CommandFailed {
        /// The target program that was executed.
        program: String,
        /// The exit code the operating system reported, or `-1` when the
        /// process ended without one (for example, killed by a signal).
        code: i32,
        /// Error text from stderr or helper-specific diagnostic output.
        message: String,
    },
    /// No elevation helper exists on the PATH for this platform.
    ElevationToolNotFound {
        /// The platform on which the search failed (for example "Linux").
        platform: String,
        /// The helpers that were searched for.
        tools: Vec<String>,
    },
    /// The user explicitly declined the privilege prompt.
    ElevationDenied,
    /// The current session cannot present a privilege prompt at all
    /// (headless, or no controlling terminal).
    UnsupportedEnvironment {
        /// The platform on which elevation is unsupported.
        platform: String,
        /// Description of the constraint preventing elevation.
        constraint: String,
    },
}

/// The one-line description of `e`.
pub open spec fn spec_message(e: ElevationError) -> Seq<char> {
    match e {
        ElevationError::ExecutionFailed { program, reason } => "Failed to execute '"@ + program@
            + "': "@ + reason@,
        ElevationError::CommandFailed { program, code, message } => "Command '"@ + program@
            + "' failed with code "@ + spec_dec_i32(code as int) + ": "@ + message@,
        ElevationError::ElevationToolNotFound { platform, tools } => "No elevation tool found on "@
            + platform@ + ": tried "@ + spec_join(tools.deep_view(), ", "@),
        ElevationError::ElevationDenied => "Elevation was denied by the user"@,
        ElevationError::UnsupportedEnvironment { platform, constraint } => "Cannot elevate on "@
            + platform@ + ": "@ + constraint@,
    }
}

impl ElevationError {
    /// Renders the error as the one-line description a user sees.
    pub fn to_message(&self) -> (r: String)
        ensures
            r@ == spec_message(*self),
    {
        match self {
            ElevationError::ExecutionFailed { program, reason } => {
                let mut s = String::new();
                s.append("Failed to execute '");
                s.append(program.as_str());
                s.append("': ");
                s.append(reason.as_str());
                proof {
                    assert(s@ =~= spec_message(*self));
                }
                s
            },
            ElevationError::CommandFailed { program, code, message } => {
                let mut s = String::new();
                s.append("Command '");
                s.append(program.as_str());
                s.append("' failed with code ");
                push_dec_i32(&mut s, *code);
                s.append(": ");
                s.append(message.as_str());
                proof {
                    assert(s@ =~= spec_message(*self));
                }
                s
            },
            ElevationError::ElevationToolNotFound { platform, tools } => {
                let mut s = String::new();
                s.append("No elevation tool found on ");
                s.append(platform.as_str());
                s.append(": tried ");
                let joined = crate::strings::join_strings(tools, ", ");
                s.append(joined.as_str());
                proof {
                    assert(s@ =~= spec_message(*self));
                }
                s
            },
            ElevationError::ElevationDenied => {
                let mut s = String::new();
                s.append("Elevation was denied by the user");
                proof {
                    assert(s@ =~= spec_message(*self));
                }
                s
            },
            ElevationError::UnsupportedEnvironment { platform, constraint } => {
                let mut s = String::new();
                s.append("Cannot elevate on ");
                s.append(platform.as_str());
                s.append(": ");
                s.append(constraint.as_str());
                proof {
                    assert(s@ =~= spec_message(*self));
                }
                s
            },
        }
    }
}

} // verus!
