//! The top of the read-dispatch-repeat cycle.
//!
//! Each iteration prompts, reads one line, and dispatches it:
//! `handle_command` tokenizes the line, asks the builtin dispatcher first,
//! and otherwise builds a command, yielding a `Plan` that says what the
//! iteration should do.  End of input, or a failed read, ends the loop
//! cleanly; every error an iteration surfaces is printed and the loop goes
//! on to the next prompt.

use vstd::prelude::*;
use vstd::string::StringExecFns;
use crate::builder::ParseError;
use crate::builder::build_command;
use crate::builder::spec_build;
use crate::builtins::BuiltinCall;
use crate::builtins::builtins;
use crate::builtins::spec_builtins;
use crate::command::Command;
use crate::command::command_matches;
use crate::command::wf;
use crate::tokenize::spec_tokens;
use crate::tokenize::tokenize;

verus! {

/// What one input line asks the interpreter to do.
pub enum Plan {
    /// Nothing but blanks: show the next prompt.
    Empty,
    /// A builtin call, run in-process.
    Builtin { call: BuiltinCall },
    /// An external command to spawn.
    External { command: Command },
    /// A malformed line: report the error, execute nothing.
    Malformed { error: ParseError },
}

/// Decide what one input line asks for: tokenize it, try the builtin
/// dispatcher, and only if it declines build an external command.
pub fn handle_command(line: &str) -> (p: Plan)
    ensures
        ({
            let toks = spec_tokens(line@);
            &&& toks.len() == 0 ==> p is Empty
            &&& (spec_builtins(toks) matches Some(m) ==> p matches Plan::Builtin { call } && call@
                == m)
            &&& (toks.len() > 0 && spec_builtins(toks) is None ==> {
                &&& (spec_build(toks) matches Ok(ms) ==> p matches Plan::External { command }
                    && wf(command) && command_matches(command, ms))
                &&& (spec_build(toks) matches Err(e) ==> p matches Plan::Malformed { error }
                    && error == e)
            })
        }),
{
    let tokens = tokenize(line);
    if tokens.len() == 0 {
        return Plan::Empty;
    }
    match builtins(&tokens) {
        Some(call) => Plan::Builtin { call },
        None => match build_command(&tokens) {
            Ok(command) => Plan::External { command },
            Err(error) => Plan::Malformed { error },
        },
    }
}

/// What the read step of one iteration produced.
pub enum ReadEvent {
    /// One line of input.
    Line { text: String },
    /// The input stream ended; the shell is done.
    EndOfInput,
    /// The input stream itself failed: the one unrecoverable condition.
    ReadFailure,
}

/// The loop's transition on a read event: it goes on exactly while lines
/// keep coming; end of input and a failed read both terminate it cleanly.
pub fn loop_continues(event: &ReadEvent) -> (b: bool)
    ensures
        b == ((*event) matches ReadEvent::Line { .. }),
{
    match event {
        ReadEvent::Line { .. } => true,
        ReadEvent::EndOfInput => false,
        ReadEvent::ReadFailure => false,
    }
}

/// The prompt shown before each line is read, with no trailing newline.
pub fn prompt() -> (s: String)
    ensures
        s@ == "$ "@,
{
    String::from_str("$ ")
}

} // verus!
