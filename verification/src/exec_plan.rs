//! Planning how a command's stages are wired and judged.
//!
//! Running a command means spawning one process per stage with the right
//! stream bindings: a pipe between each adjacent pair of pipeline stages,
//! files where a redirection names them, the shell's own streams
//! everywhere else.  `execution_plan` computes those bindings; the
//! embedding program creates the pipes and processes.  The verdicts are
//! pure as well: the pipeline's exit status is its last stage's, a failed
//! program lookup is `CommandNotFound`, a refused spawn is `SpawnFailed`,
//! and an abnormal termination is `ExecutionFailed`.

use vstd::prelude::*;
use crate::command::Command;
use crate::command::wf;
use crate::command::wf_stage;
use crate::errors::ShellError;

verus! {

/// Where one stage reads its standard input.
pub enum StdinSource {
    /// The shell's own standard input.
    Inherit,
    /// A file named by an input redirection.
    File { path: String },
    /// The pipe fed by the previous pipeline stage.
    PipeFromPrevious,
}

/// Where one stage writes its standard output.
pub enum StdoutSink {
    /// The shell's own standard output.
    Inherit,
    /// A file named by an output redirection; `append` keeps its contents.
    File { path: String, append: bool },
    /// The pipe that feeds the next pipeline stage.
    PipeToNext,
}

/// One process to spawn: program, arguments and stream bindings.
pub struct StagePlan {
    pub program: String,
    pub args: Vec<String>,
    pub stdin: StdinSource,
    pub stdout: StdoutSink,
}

/// Whether `p` spawns exactly the stage `c` of a command, where `first`
/// and `last` say whether the stage begins or ends the whole command.  A
/// redirection always wins over a pipe; without one, an interior stage is
/// wired to its neighbours and an outer one inherits the shell's streams.
pub open spec fn plan_matches_stage(p: StagePlan, c: Command, first: bool, last: bool) -> bool {
    match c {
        Command::Simple { program, args } => {
            &&& p.program@ == program@
            &&& p.args.deep_view() == args.deep_view()
            &&& p.stdin == (if first {
                StdinSource::Inherit
            } else {
                StdinSource::PipeFromPrevious
            })
            &&& p.stdout == (if last {
                StdoutSink::Inherit
            } else {
                StdoutSink::PipeToNext
            })
        },
        Command::Redirected { inner, stdin, stdout, append } => {
            &&& ((*inner) matches Command::Simple { program, args } && p.program@ == program@
                && p.args.deep_view() == args.deep_view())
            &&& match stdin {
                Some(path) => p.stdin matches StdinSource::File { path: q } && q@ == path@,
                None => p.stdin == (if first {
                    StdinSource::Inherit
                } else {
                    StdinSource::PipeFromPrevious
                }),
            }
            &&& match stdout {
                Some(path) => p.stdout matches StdoutSink::File { path: q, append: a } && q@
                    == path@ && a == append,
                None => p.stdout == (if last {
                    StdoutSink::Inherit
                } else {
                    StdoutSink::PipeToNext
                }),
            }
        },
        Command::Pipeline { .. } => false,
    }
}

/// Plan one stage, cloning its program and arguments and choosing its
/// stream bindings from its redirections and its position.
fn plan_stage(c: &Command, first: bool, last: bool) -> (p: StagePlan)
    requires
        wf_stage(*c),
    ensures
        plan_matches_stage(p, *c, first, last),
{
    match c {
        Command::Simple { program, args } => StagePlan {
            program: program.clone(),
            args: args.clone(),
            stdin: if first {
                StdinSource::Inherit
            } else {
                StdinSource::PipeFromPrevious
            },
            stdout: if last {
                StdoutSink::Inherit
            } else {
                StdoutSink::PipeToNext
            },
        },
        Command::Redirected { inner, stdin, stdout, append } => {
            let (program, args) = match &**inner {
                Command::Simple { program, args } => (program.clone(), args.clone()),
                _ => {
                    proof {
                        assert(false);
                    }
                    (String::new(), Vec::new())
                },
            };
            StagePlan {
                program,
                args,
                stdin: match stdin {
                    Some(path) => StdinSource::File { path: path.clone() },
                    None => if first {
                        StdinSource::Inherit
                    } else {
                        StdinSource::PipeFromPrevious
                    },
                },
                stdout: match stdout {
                    Some(path) => StdoutSink::File { path: path.clone(), append: *append },
                    None => if last {
                        StdoutSink::Inherit
                    } else {
                        StdoutSink::PipeToNext
                    },
                },
            }
        },
        Command::Pipeline { .. } => {
            proof {
                assert(false);
            }
            StagePlan {
                program: String::new(),
                args: Vec::new(),
                stdin: StdinSource::Inherit,
                stdout: StdoutSink::Inherit,
            }
        },
    }
}

/// The processes a command asks for, in stage order: one for a simple or
/// redirected command, one per stage for a pipeline, with a pipe wired
/// between each adjacent pair.
pub fn execution_plan(c: &Command) -> (r: Vec<StagePlan>)
    requires
        wf(*c),
    ensures
        !((*c) matches Command::Pipeline { .. }) ==> r@.len() == 1 && plan_matches_stage(
            r@[0],
            *c,
            true,
            true,
        ),
        (*c) matches Command::Pipeline { stages } ==> r@.len() == stages@.len() && (forall|i: int|
            0 <= i < stages@.len() ==> plan_matches_stage(
                r@[i],
                #[trigger] stages@[i],
                i == 0,
                i == stages@.len() - 1,
            )),
{
    match c {
        Command::Pipeline { stages } => {
            let n = stages.len();
            let mut plans: Vec<StagePlan> = Vec::new();
            let mut i: usize = 0;
            while i < n
                invariant
                    n == stages@.len(),
                    i <= n,
                    plans@.len() == i,
                    forall|k: int| 0 <= k < n ==> wf_stage(#[trigger] stages@[k]),
                    forall|k: int|
                        0 <= k < i ==> plan_matches_stage(
                            plans@[k],
                            #[trigger] stages@[k],
                            k == 0,
                            k == n - 1,
                        ),
                decreases n - i,
            {
                let p = plan_stage(&stages[i], i == 0, i == n - 1);
                plans.push(p);
                i = i + 1;
            }
            plans
        },
        _ => {
            let p = plan_stage(c, true, true);
            let mut plans: Vec<StagePlan> = Vec::new();
            plans.push(p);
            plans
        },
    }
}

/// The exit status of a whole pipeline: the exit status of its last
/// stage, whatever the earlier stages did.
pub fn pipeline_status(statuses: &Vec<i32>) -> (r: i32)
    requires
        statuses@.len() > 0,
    ensures
        r == statuses@.last(),
{
    statuses[statuses.len() - 1]
}

/// How the launcher failed to start a program.
pub enum SpawnFailure {
    /// The name resolved to nothing on the search path.
    NotFound,
    /// The system refused to create the process, with its description.
    Refused { message: String },
}

/// The error a failed launch surfaces: a name that resolves to nothing is
/// `CommandNotFound`; a refused creation is `SpawnFailed`.  Neither
/// touches the shell's state.
pub fn spawn_failure_error(program: &String, failure: SpawnFailure) -> (e: ShellError)
    ensures
        failure is NotFound ==> (e matches ShellError::CommandNotFound { program: p } && p@
            == program@),
        failure matches SpawnFailure::Refused { message } ==> (e matches ShellError::SpawnFailed {
            program: p,
            message: m,
        } && p@ == program@ && m@ == message@),
{
    match failure {
        SpawnFailure::NotFound => ShellError::CommandNotFound { program: program.clone() },
        SpawnFailure::Refused { message } => ShellError::SpawnFailed {
            program: program.clone(),
            message,
        },
    }
}

/// How an awaited child ended.
pub enum WaitOutcome {
    /// A normal exit with a status code.
    Exited { code: i32 },
    /// An abnormal end (for example a signal), with its description.
    Abnormal { message: String },
}

/// The verdict on an awaited child: its exit code on a normal exit,
/// `ExecutionFailed` on an abnormal end.  Reported, never fatal to the
/// interpreter.
pub fn wait_status(program: &String, outcome: WaitOutcome) -> (r: Result<i32, ShellError>)
    ensures
        outcome matches WaitOutcome::Exited { code } ==> r == Ok::<i32, ShellError>(code),
        outcome matches WaitOutcome::Abnormal { message } ==> (r matches Err(e) && (e
            matches ShellError::ExecutionFailed { program: p, message: m } && p@ == program@ && m@
            == message@)),
{
    match outcome {
        WaitOutcome::Exited { code } => Ok(code),
        WaitOutcome::Abnormal { message } => Err(
            ShellError::ExecutionFailed { program: program.clone(), message },
        ),
    }
}

} // verus!
