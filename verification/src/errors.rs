//! The failure taxonomy of the interpreter, and its rendering.
//!
//! Every failure a command or builtin can surface is one variant of
//! `ShellError`; the interpreter loop prints its message to standard error
//! and goes on to the next prompt.  Each kind renders with its own prefix,
//! so the kinds stay distinguishable in the output.

use vstd::prelude::*;
use vstd::string::StrSliceExecFns;
use vstd::string::StringExecFns;
use crate::builder::ParseError;

verus! {

/// A failure surfaced while interpreting one line.  None of these is fatal
/// to the interpreter itself.
pub enum ShellError {
    /// The token sequence was malformed; nothing was executed.
    Parse { error: ParseError },
    /// The program name resolved to nothing on the search path.
    CommandNotFound { program: String },
    /// The operating system refused to create the process.
    SpawnFailed { program: String, message: String },
    /// The child terminated abnormally (for example by a signal).
    ExecutionFailed { program: String, message: String },
    /// A redirection file could not be opened.
    Redirection { path: String, message: String },
    /// A builtin was invoked with the wrong number of arguments.
    BuiltinUsage { message: String },
    /// The operating system rejected a builtin's state change.
    BuiltinState { message: String },
}

/// The digit character of one decimal digit.
pub open spec fn digit_char(d: int) -> char {
    if d == 0 {
        '0'
    } else if d == 1 {
        '1'
    } else if d == 2 {
        '2'
    } else if d == 3 {
        '3'
    } else if d == 4 {
        '4'
    } else if d == 5 {
        '5'
    } else if d == 6 {
        '6'
    } else if d == 7 {
        '7'
    } else if d == 8 {
        '8'
    } else {
        '9'
    }
}

/// The decimal rendering of a non-negative number, most significant digit
/// first.
pub open spec fn spec_decimal(n: int) -> Seq<char>
    decreases n,
{
    if n < 0 {
        Seq::empty()
    } else if n < 10 {
        seq![digit_char(n)]
    } else {
        spec_decimal(n / 10) + seq![digit_char(n % 10)]
    }
}

/// The one-character string of a decimal digit.
fn digit_str(d: u64) -> (s: &'static str)
    requires
        d < 10,
    ensures
        s@ == seq![digit_char(d as int)],
{
    if d == 0 {
        proof {
            reveal_strlit("0");
            assert("0"@ =~= seq![digit_char(0)]);
        }
        "0"
    } else if d == 1 {
        proof {
            reveal_strlit("1");
            assert("1"@ =~= seq![digit_char(1)]);
        }
        "1"
    } else if d == 2 {
        proof {
            reveal_strlit("2");
            assert("2"@ =~= seq![digit_char(2)]);
        }
        "2"
    } else if d == 3 {
        proof {
            reveal_strlit("3");
            assert("3"@ =~= seq![digit_char(3)]);
        }
        "3"
    } else if d == 4 {
        proof {
            reveal_strlit("4");
            assert("4"@ =~= seq![digit_char(4)]);
        }
        "4"
    } else if d == 5 {
        proof {
            reveal_strlit("5");
            assert("5"@ =~= seq![digit_char(5)]);
        }
        "5"
    } else if d == 6 {
        proof {
            reveal_strlit("6");
            assert("6"@ =~= seq![digit_char(6)]);
        }
        "6"
    } else if d == 7 {
        proof {
            reveal_strlit("7");
            assert("7"@ =~= seq![digit_char(7)]);
        }
        "7"
    } else if d == 8 {
        proof {
            reveal_strlit("8");
            assert("8"@ =~= seq![digit_char(8)]);
        }
        "8"
    } else {
        proof {
            reveal_strlit("9");
            assert("9"@ =~= seq![digit_char(9)]);
        }
        "9"
    }
}

/// Append the decimal rendering of `n` to `out`.
pub fn push_decimal(n: u64, out: &mut String)
    ensures
        final(out)@ == old(out)@ + spec_decimal(n as int),
    decreases n,
{
    if n < 10 {
        out.append(digit_str(n));
    } else {
        push_decimal(n / 10, out);
        out.append(digit_str(n % 10));
        proof {
            assert(out@ =~= old(out)@ + spec_decimal(n as int));
        }
    }
}

/// The decimal rendering of `n` as a string.
pub fn decimal_string(n: u64) -> (s: String)
    ensures
        s@ == spec_decimal(n as int),
{
    let mut s = String::new();
    push_decimal(n, &mut s);
    proof {
        assert(s@ =~= spec_decimal(n as int));
    }
    s
}

/// What a parse error is called in a diagnostic.
pub open spec fn parse_kind_text(e: ParseError) -> Seq<char> {
    match e {
        ParseError::EmptyStage { .. } => "empty pipeline stage"@,
        ParseError::MissingRedirectTarget { .. } => "missing redirection target"@,
        ParseError::MissingProgram { .. } => "missing program"@,
    }
}

/// The token position a parse error points at.
pub open spec fn parse_position(e: ParseError) -> int {
    match e {
        ParseError::EmptyStage { position } => position as int,
        ParseError::MissingRedirectTarget { position } => position as int,
        ParseError::MissingProgram { position } => position as int,
    }
}

/// The full diagnostic line of an error, with a kind-specific prefix.
pub open spec fn spec_message(e: ShellError) -> Seq<char> {
    match e {
        ShellError::Parse { error } => "parse error: "@ + parse_kind_text(error)
            + " at token "@ + spec_decimal(parse_position(error)),
        ShellError::CommandNotFound { program } => "command not found: "@ + program@,
        ShellError::SpawnFailed { program, message } => "spawn failed: "@ + program@ + ": "@
            + message@,
        ShellError::ExecutionFailed { program, message } => "execution failed: "@ + program@
            + ": "@ + message@,
        ShellError::Redirection { path, message } => "redirection error: "@ + path@ + ": "@
            + message@,
        ShellError::BuiltinUsage { message } => message@,
        ShellError::BuiltinState { message } => message@,
    }
}

/// Render the diagnostic line of `e`.
pub fn render_error(e: &ShellError) -> (s: String)
    ensures
        s@ == spec_message(*e),
{
    match e {
        ShellError::Parse { error } => {
            let mut s = String::from_str("parse error: ");
            let (kind, position): (&'static str, usize) = match error {
                ParseError::EmptyStage { position } => ("empty pipeline stage", *position),
                ParseError::MissingRedirectTarget { position } => (
                    "missing redirection target",
                    *position,
                ),
                ParseError::MissingProgram { position } => ("missing program", *position),
            };
            s.append(kind);
            s.append(" at token ");
            push_decimal(position as u64, &mut s);
            proof {
                assert(s@ =~= spec_message(*e));
            }
            s
        },
        ShellError::CommandNotFound { program } => {
            let mut s = String::from_str("command not found: ");
            s.append(program.as_str());
            proof {
                assert(s@ =~= spec_message(*e));
            }
            s
        },
        ShellError::SpawnFailed { program, message } => {
            let mut s = String::from_str("spawn failed: ");
            s.append(program.as_str());
            s.append(": ");
            s.append(message.as_str());
            proof {
                assert(s@ =~= spec_message(*e));
            }
            s
        },
        ShellError::ExecutionFailed { program, message } => {
            let mut s = String::from_str("execution failed: ");
            s.append(program.as_str());
            s.append(": ");
            s.append(message.as_str());
            proof {
                assert(s@ =~= spec_message(*e));
            }
            s
        },
        ShellError::Redirection { path, message } => {
            let mut s = String::from_str("redirection error: ");
            s.append(path.as_str());
            s.append(": ");
            s.append(message.as_str());
            proof {
                assert(s@ =~= spec_message(*e));
            }
            s
        },
        ShellError::BuiltinUsage { message } => message.clone(),
        ShellError::BuiltinState { message } => message.clone(),
    }
}

} // verus!
