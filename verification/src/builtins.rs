//! The builtin dispatcher and the shell's own state.
//!
//! Only `cd` and `pwd` run in-process: `cd` must mutate the shell's working
//! directory and `pwd` reports it, so neither can be delegated to a child
//! process.  The dispatcher inspects the first token and either names the
//! builtin call to perform or declines, in which case the caller builds an
//! external command.
//!
//! The working directory itself is owned by the operating system; the
//! embedding program performs the actual directory change and reports its
//! outcome, and `apply_chdir` folds that outcome into the `ShellState`
//! mirror: the state changes exactly when the change succeeded.

use vstd::prelude::*;
use vstd::string::StrSliceExecFns;
use vstd::string::StringExecFns;
use crate::errors::ShellError;

verus! {

/// The shell's own persistent state: the current working directory.
pub struct ShellState {
    pub cwd: String,
}

impl View for ShellState {
    type V = Seq<char>;

    open spec fn view(&self) -> Seq<char> {
        self.cwd@
    }
}

/// A recognised builtin invocation.
pub enum BuiltinCall {
    /// `cd` with no argument: change to the home directory.
    CdHome,
    /// `cd` with one argument: change to that path.
    CdPath { path: String },
    /// `cd` with two or more arguments: a usage error.
    CdUsage,
    /// `pwd`: report the working directory.
    Pwd,
}

/// The mathematical shape of a builtin invocation.
pub ghost enum BuiltinModel {
    CdHome,
    CdPath { path: Seq<char> },
    CdUsage,
    Pwd,
}

impl View for BuiltinCall {
    type V = BuiltinModel;

    open spec fn view(&self) -> BuiltinModel {
        match self {
            BuiltinCall::CdHome => BuiltinModel::CdHome,
            BuiltinCall::CdPath { path } => BuiltinModel::CdPath { path: path@ },
            BuiltinCall::CdUsage => BuiltinModel::CdUsage,
            BuiltinCall::Pwd => BuiltinModel::Pwd,
        }
    }
}

/// The name of the `cd` builtin.
pub open spec fn is_cd(t: Seq<char>) -> bool {
    t == seq!['c', 'd']
}

/// The name of the `pwd` builtin.
pub open spec fn is_pwd(t: Seq<char>) -> bool {
    t == seq!['p', 'w', 'd']
}

/// What the dispatcher makes of a token sequence: the builtin call it
/// names, or nothing when the first token names no builtin.
pub open spec fn spec_builtins(toks: Seq<Seq<char>>) -> Option<BuiltinModel> {
    if toks.len() == 0 {
        None
    } else if is_cd(toks[0]) {
        if toks.len() == 1 {
            Some(BuiltinModel::CdHome)
        } else if toks.len() == 2 {
            Some(BuiltinModel::CdPath { path: toks[1] })
        } else {
            Some(BuiltinModel::CdUsage)
        }
    } else if is_pwd(toks[0]) {
        Some(BuiltinModel::Pwd)
    } else {
        None
    }
}

fn is_cd_token(t: &String) -> (b: bool)
    ensures
        b == is_cd(t@),
{
    let s = t.as_str();
    let r = s.unicode_len() == 2 && s.get_char(0) == 'c' && s.get_char(1) == 'd';
    proof {
        assert(seq!['c', 'd'].len() == 2);
        assert(seq!['c', 'd'][0] == 'c' && seq!['c', 'd'][1] == 'd');
        if r {
            assert(t@ =~= seq!['c', 'd']);
        }
    }
    r
}

fn is_pwd_token(t: &String) -> (b: bool)
    ensures
        b == is_pwd(t@),
{
    let s = t.as_str();
    let r = s.unicode_len() == 3 && s.get_char(0) == 'p' && s.get_char(1) == 'w' && s.get_char(2)
        == 'd';
    proof {
        assert(seq!['p', 'w', 'd'].len() == 3);
        assert(seq!['p', 'w', 'd'][0] == 'p' && seq!['p', 'w', 'd'][1] == 'w' && seq!['p', 'w', 'd'][2]
            == 'd');
        if r {
            assert(t@ =~= seq!['p', 'w', 'd']);
        }
    }
    r
}

/// Inspect the first token and name the builtin call it asks for, or
/// decline with `None` so the caller builds an external command.
pub fn builtins(command: &Vec<String>) -> (r: Option<BuiltinCall>)
    ensures
        r matches Some(b) ==> spec_builtins(command.deep_view()) == Some(b@),
        r is None ==> spec_builtins(command.deep_view()) is None,
{
    if command.len() == 0 {
        return None;
    }
    let first = &command[0];
    if is_cd_token(first) {
        if command.len() == 1 {
            Some(BuiltinCall::CdHome)
        } else if command.len() == 2 {
            Some(BuiltinCall::CdPath { path: command[1].clone() })
        } else {
            Some(BuiltinCall::CdUsage)
        }
    } else if is_pwd_token(first) {
        Some(BuiltinCall::Pwd)
    } else {
        None
    }
}

/// A path that starts at the root rather than at the working directory.
pub open spec fn is_absolute(p: Seq<char>) -> bool {
    p.len() > 0 && p[0] == '/'
}

/// The directory a `cd` argument names: the path itself when absolute,
/// else the path joined to the working directory with a separator.
pub open spec fn spec_resolve(cwd: Seq<char>, p: Seq<char>) -> Seq<char> {
    if is_absolute(p) {
        p
    } else if cwd.len() > 0 && cwd[cwd.len() - 1] == '/' {
        cwd + p
    } else {
        cwd + seq!['/'] + p
    }
}

/// Resolve a `cd` argument against the working directory.  An absolute
/// working directory stays absolute through any resolution.
pub fn resolve_path(state: &ShellState, path: &String) -> (r: String)
    ensures
        r@ == spec_resolve(state@, path@),
        is_absolute(state@) ==> is_absolute(r@),
{
    let p = path.as_str();
    let absolute = p.unicode_len() > 0 && p.get_char(0) == '/';
    if absolute {
        path.clone()
    } else {
        let cwd = state.cwd.as_str();
        let n = cwd.unicode_len();
        let mut r = state.cwd.clone();
        if n == 0 || cwd.get_char(n - 1) != '/' {
            r.append("/");
            proof {
                reveal_strlit("/");
                assert("/"@ =~= seq!['/']);
            }
        }
        r.append(p);
        proof {
            assert(r@ =~= spec_resolve(state@, path@));
        }
        r
    }
}

/// What the working directory is after a `cd`: the target when the
/// operating system accepted the change, the old directory untouched when
/// it refused.  The change is atomic: no third outcome exists.
pub open spec fn spec_cd(cwd: Seq<char>, target: Seq<char>, accepted: bool) -> Seq<char> {
    if accepted {
        target
    } else {
        cwd
    }
}

/// How the operating system answered a directory-change request.
pub enum ChdirOutcome {
    Accepted,
    /// Refused, with the system's own description of why.
    Refused { message: String },
}

/// The diagnostic of a refused directory change.
pub open spec fn chdir_message(path: Seq<char>, message: Seq<char>) -> Seq<char> {
    "cd: "@ + path + ": "@ + message
}

/// Fold the outcome of a directory change into the shell state: on
/// acceptance the working directory becomes exactly `target`; on refusal
/// it stays exactly what it was and the `cd: <path>: <message>` error is
/// returned.
pub fn apply_chdir(state: &mut ShellState, target: &String, outcome: ChdirOutcome) -> (r: Result<
    (),
    ShellError,
>)
    ensures
        final(state)@ == spec_cd(old(state)@, target@, outcome is Accepted),
        outcome is Accepted ==> r is Ok,
        outcome matches ChdirOutcome::Refused { message } ==> r matches Err(e)
            && (e matches ShellError::BuiltinState { message: m } && m@ == chdir_message(
            target@,
            message@,
        )),
{
    match outcome {
        ChdirOutcome::Accepted => {
            state.cwd = target.clone();
            Ok(())
        },
        ChdirOutcome::Refused { message } => {
            let mut m = String::from_str("cd: ");
            m.append(target.as_str());
            m.append(": ");
            m.append(message.as_str());
            proof {
                assert(m@ =~= chdir_message(target@, message@));
            }
            Err(ShellError::BuiltinState { message: m })
        },
    }
}

/// The target of a bare `cd`: the home directory, if the environment
/// provides one; the `cd: no directory to change to` error otherwise.
pub fn cd_home_target(home: Option<String>) -> (r: Result<String, ShellError>)
    ensures
        home matches Some(h) ==> r matches Ok(t) && t == h,
        home is None ==> (r matches Err(e) && (e matches ShellError::BuiltinState { message }
            && message@ == "cd: no directory to change to"@)),
{
    match home {
        Some(h) => Ok(h),
        None => Err(
            ShellError::BuiltinState { message: String::from_str("cd: no directory to change to") },
        ),
    }
}

/// The usage error of a `cd` with two or more arguments; malformed input
/// must not crash the interpreter.
pub fn cd_usage_error() -> (e: ShellError)
    ensures
        e matches ShellError::BuiltinUsage { message } && message@ == "cd: too many arguments"@,
{
    ShellError::BuiltinUsage { message: String::from_str("cd: too many arguments") }
}

/// What `pwd` prints: exactly the working directory of the state.
pub fn pwd(state: &ShellState) -> (r: String)
    ensures
        r@ == state@,
{
    state.cwd.clone()
}

/// A `cd` to an existing directory followed by `pwd` reports exactly the
/// resolved target, and for an absolute path exactly the path given to
/// `cd`.
pub proof fn lemma_cd_then_pwd(cwd: Seq<char>, path: Seq<char>)
    ensures
        spec_cd(cwd, spec_resolve(cwd, path), true) == spec_resolve(cwd, path),
        is_absolute(path) ==> spec_cd(cwd, spec_resolve(cwd, path), true) == path,
{
}

/// A `cd` that the operating system refused leaves the working directory
/// exactly as it was: `pwd` before and after agree.
pub proof fn lemma_failed_cd_keeps_cwd(cwd: Seq<char>, target: Seq<char>)
    ensures
        spec_cd(cwd, target, false) == cwd,
{
}

/// A bare `cd` moves to the home directory: `pwd` afterwards reports
/// exactly the home directory value.
pub proof fn lemma_cd_home_then_pwd(cwd: Seq<char>, home: Seq<char>)
    ensures
        spec_cd(cwd, home, true) == home,
{
}

} // verus!
