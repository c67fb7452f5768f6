//! Command-interpretation core of a small POSIX-like shell.
//!
//! The crate covers the pure part of a shell's read-dispatch-repeat cycle:
//! splitting an input line into tokens, recognising the `cd` and `pwd`
//! builtins, parsing the remaining lines into a command model (simple
//! invocations, redirections, pipelines), and planning how the stages of a
//! command are wired together.  Everything that actually touches the
//! operating system (spawning processes, changing the process directory,
//! reading lines) is left to the embedding program, which hands plain values
//! in and out of the functions defined here.

pub mod builder;
pub mod builtins;
pub mod command;
pub mod errors;
pub mod exec_plan;
pub mod interp;
pub mod tokenize;
