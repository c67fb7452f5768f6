//! The command model: one tagged type for every executable unit.
//!
//! A `Command` is a simple invocation, an invocation with its standard
//! streams rebound to files, or a pipeline of at least two stages.  The
//! grammar of an input line only ever produces pipelines whose stages are
//! simple or redirected commands, and redirections that wrap a simple
//! command; `wf` pins that shape down.

use vstd::prelude::*;

verus! {

/// One executable unit of the shell.
pub enum Command {
    /// A program name plus its ordered argument list.
    Simple { program: String, args: Vec<String> },
    /// An inner command with standard input and/or output rebound to files.
    /// `append` asks for the output file to be opened in append mode.
    Redirected {
        inner: Box<Command>,
        stdin: Option<String>,
        stdout: Option<String>,
        append: bool,
    },
    /// Stages connected by pipes; stage `i`'s output feeds stage `i + 1`.
    Pipeline { stages: Vec<Command> },
}

/// The mathematical shape of one pipeline stage: the program, its
/// arguments, and the files (if any) its streams are rebound to.
pub ghost struct StageModel {
    pub program: Seq<char>,
    pub args: Seq<Seq<char>>,
    pub stdin: Option<Seq<char>>,
    pub stdout: Option<Seq<char>>,
    pub append: bool,
}

impl StageModel {
    /// Whether the stage rebinds any stream at all.
    pub open spec fn redirected(self) -> bool {
        self.stdin is Some || self.stdout is Some
    }
}

/// Whether the command `c` is exactly the stage described by `m`: a bare
/// `Simple` when `m` rebinds nothing, else a `Redirected` around a `Simple`.
pub open spec fn stage_matches(c: Command, m: StageModel) -> bool {
    if m.redirected() {
        &&& c matches Command::Redirected { inner, stdin, stdout, append }
        &&& (*inner) matches Command::Simple { program, args }
        &&& program@ == m.program
        &&& args.deep_view() == m.args
        &&& match (stdin, m.stdin) {
            (Some(p), Some(q)) => p@ == q,
            (None, None) => true,
            _ => false,
        }
        &&& match (stdout, m.stdout) {
            (Some(p), Some(q)) => p@ == q,
            (None, None) => true,
            _ => false,
        }
        &&& append == m.append
    } else {
        &&& c matches Command::Simple { program, args }
        &&& program@ == m.program
        &&& args.deep_view() == m.args
    }
}

/// Whether the command `c` is exactly the sequence of stages `ms`: the
/// single stage itself for one stage, a pipeline of the stages for more.
pub open spec fn command_matches(c: Command, ms: Seq<StageModel>) -> bool {
    if ms.len() == 1 {
        stage_matches(c, ms[0])
    } else {
        &&& c matches Command::Pipeline { stages }
        &&& stages@.len() == ms.len()
        &&& forall|i: int| 0 <= i < ms.len() ==> stage_matches(#[trigger] stages@[i], ms[i])
    }
}

/// A well-formed stage: a bare simple command, or a redirection that wraps
/// a simple command and rebinds at least one stream.
pub open spec fn wf_stage(c: Command) -> bool {
    match c {
        Command::Simple { .. } => true,
        Command::Redirected { inner, stdin, stdout, .. } => {
            &&& (*inner) matches Command::Simple { .. }
            &&& (stdin is Some || stdout is Some)
        },
        Command::Pipeline { .. } => false,
    }
}

/// A well-formed command: a well-formed stage, or a pipeline of at least
/// two well-formed stages.  A one-stage pipeline never arises: the builder
/// normalizes it to the stage itself.
pub open spec fn wf(c: Command) -> bool {
    match c {
        Command::Pipeline { stages } => {
            &&& stages@.len() >= 2
            &&& forall|i: int| 0 <= i < stages@.len() ==> wf_stage(#[trigger] stages@[i])
        },
        _ => wf_stage(c),
    }
}

} // verus!
