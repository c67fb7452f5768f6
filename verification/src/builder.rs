//! Turning a token sequence into one command.
//!
//! The sequence is split on the pipe token into stages; within a stage the
//! redirection operators `<`, `>` and `>>` each consume the token that
//! follows them as a file path, and every remaining token is a word: the
//! first word names the program, the rest are its arguments.  A pipe with
//! no stage before or after it, an operator with no following token, and a
//! stage with no program word are malformed, and parsing fails with a
//! `ParseError` naming the offending token position; nothing is executed.

use vstd::prelude::*;
use vstd::string::StrSliceExecFns;
use crate::command::Command;
use crate::command::StageModel;
use crate::command::command_matches;
use crate::command::stage_matches;
use crate::command::wf;
use crate::command::wf_stage;

verus! {

/// A malformed token sequence; `position` is the index of the token at
/// which the problem was found (for a missing trailing token, the index
/// just past the end).
#[derive(Clone, Copy, Debug, PartialEq, Eq, Structural)]
pub enum ParseError {
    /// A pipe at the start or end of the line, or two pipes with nothing
    /// between them: a stage with no tokens at all.
    EmptyStage { position: usize },
    /// A redirection operator with no token after it to name the file.
    MissingRedirectTarget { position: usize },
    /// A stage made of redirections alone, with no program word.
    MissingProgram { position: usize },
}

/// The pipe separator between pipeline stages.
pub open spec fn is_pipe(t: Seq<char>) -> bool {
    t == seq!['|']
}

/// The input-redirection operator.
pub open spec fn is_redirect_in(t: Seq<char>) -> bool {
    t == seq!['<']
}

/// The truncating output-redirection operator.
pub open spec fn is_redirect_out(t: Seq<char>) -> bool {
    t == seq!['>']
}

/// The appending output-redirection operator.
pub open spec fn is_redirect_append(t: Seq<char>) -> bool {
    t == seq!['>', '>']
}

/// The index of the first pipe token at or after `from`, or the length of
/// the sequence when no pipe follows.
pub open spec fn find_pipe(toks: Seq<Seq<char>>, from: int) -> int
    decreases toks.len() - from,
{
    if from < 0 || from >= toks.len() {
        toks.len() as int
    } else if is_pipe(toks[from]) {
        from
    } else {
        find_pipe(toks, from + 1)
    }
}

/// The state of a stage scan: the words and redirections seen so far.
pub ghost struct StageAcc {
    pub program: Option<Seq<char>>,
    pub args: Seq<Seq<char>>,
    pub stdin: Option<Seq<char>>,
    pub stdout: Option<Seq<char>>,
    pub append: bool,
}

impl StageAcc {
    /// The scan before any token of the stage has been read.
    pub open spec fn init() -> StageAcc {
        StageAcc {
            program: None,
            args: Seq::empty(),
            stdin: None,
            stdout: None,
            append: false,
        }
    }

    /// The finished stage, if a program word was seen.
    pub open spec fn finish(self, base: int) -> Result<StageModel, ParseError> {
        match self.program {
            Some(p) => Ok(
                StageModel {
                    program: p,
                    args: self.args,
                    stdin: self.stdin,
                    stdout: self.stdout,
                    append: self.append,
                },
            ),
            None => Err(ParseError::MissingProgram { position: base as usize }),
        }
    }
}

/// Scan the stage tokens `ts` (which start at index `base` of the whole
/// line) from position `i` onward, with `acc` holding what was read so far.
/// A later redirection of the same stream replaces an earlier one.
pub open spec fn spec_stage_rec(ts: Seq<Seq<char>>, base: int, i: int, acc: StageAcc) -> Result<
    StageModel,
    ParseError,
>
    decreases ts.len() - i,
{
    if i < 0 || i >= ts.len() {
        acc.finish(base)
    } else if is_redirect_in(ts[i]) {
        if i + 1 < ts.len() {
            spec_stage_rec(ts, base, i + 2, StageAcc { stdin: Some(ts[i + 1]), ..acc })
        } else {
            Err(ParseError::MissingRedirectTarget { position: (base + i) as usize })
        }
    } else if is_redirect_out(ts[i]) {
        if i + 1 < ts.len() {
            spec_stage_rec(
                ts,
                base,
                i + 2,
                StageAcc { stdout: Some(ts[i + 1]), append: false, ..acc },
            )
        } else {
            Err(ParseError::MissingRedirectTarget { position: (base + i) as usize })
        }
    } else if is_redirect_append(ts[i]) {
        if i + 1 < ts.len() {
            spec_stage_rec(
                ts,
                base,
                i + 2,
                StageAcc { stdout: Some(ts[i + 1]), append: true, ..acc },
            )
        } else {
            Err(ParseError::MissingRedirectTarget { position: (base + i) as usize })
        }
    } else if acc.program is None {
        spec_stage_rec(ts, base, i + 1, StageAcc { program: Some(ts[i]), ..acc })
    } else {
        spec_stage_rec(ts, base, i + 1, StageAcc { args: acc.args.push(ts[i]), ..acc })
    }
}

/// The stage parsed from the tokens `ts`, which start at index `base` of
/// the whole line.
pub open spec fn spec_stage(ts: Seq<Seq<char>>, base: int) -> Result<StageModel, ParseError> {
    spec_stage_rec(ts, base, 0, StageAcc::init())
}

/// The stages parsed from the tokens of the whole line, from index `from`
/// onward.  `from` sits at the start of a stage: index 0, or just after a
/// pipe.
pub open spec fn spec_stages(toks: Seq<Seq<char>>, from: int) -> Result<
    Seq<StageModel>,
    ParseError,
>
    decreases toks.len() - from,
{
    let j = find_pipe(toks, from);
    if from < 0 || j <= from {
        Err(ParseError::EmptyStage { position: from as usize })
    } else {
        match spec_stage(toks.subrange(from, j), from) {
            Err(e) => Err(e),
            Ok(st) => {
                if j >= toks.len() {
                    Ok(seq![st])
                } else {
                    match spec_stages(toks, j + 1) {
                        Err(e) => Err(e),
                        Ok(rest) => Ok(seq![st] + rest),
                    }
                }
            },
        }
    }
}

/// The stage sequence parsed from a whole token sequence.
pub open spec fn spec_build(toks: Seq<Seq<char>>) -> Result<Seq<StageModel>, ParseError> {
    spec_stages(toks, 0)
}

/// Whether `t` is the pipe separator.
pub fn is_pipe_token(t: &String) -> (b: bool)
    ensures
        b == is_pipe(t@),
{
    let s = t.as_str();
    let r = s.unicode_len() == 1 && s.get_char(0) == '|';
    proof {
        assert(seq!['|'].len() == 1 && seq!['|'][0] == '|');
        if r {
            assert(t@ =~= seq!['|']);
        }
    }
    r
}

/// Whether `t` is the input-redirection operator.
pub fn is_redirect_in_token(t: &String) -> (b: bool)
    ensures
        b == is_redirect_in(t@),
{
    let s = t.as_str();
    let r = s.unicode_len() == 1 && s.get_char(0) == '<';
    proof {
        assert(seq!['<'].len() == 1 && seq!['<'][0] == '<');
        if r {
            assert(t@ =~= seq!['<']);
        }
    }
    r
}

/// Whether `t` is the truncating output-redirection operator.
pub fn is_redirect_out_token(t: &String) -> (b: bool)
    ensures
        b == is_redirect_out(t@),
{
    let s = t.as_str();
    let r = s.unicode_len() == 1 && s.get_char(0) == '>';
    proof {
        assert(seq!['>'].len() == 1 && seq!['>'][0] == '>');
        if r {
            assert(t@ =~= seq!['>']);
        }
    }
    r
}

/// Whether `t` is the appending output-redirection operator.
pub fn is_redirect_append_token(t: &String) -> (b: bool)
    ensures
        b == is_redirect_append(t@),
{
    let s = t.as_str();
    let r = s.unicode_len() == 2 && s.get_char(0) == '>' && s.get_char(1) == '>';
    proof {
        assert(seq!['>', '>'].len() == 2);
        assert(seq!['>', '>'][0] == '>' && seq!['>', '>'][1] == '>');
        if r {
            assert(t@ =~= seq!['>', '>']);
        }
    }
    r
}

/// The stage accumulator described by the builder's working variables.
pub open spec fn acc_of(
    program: Option<String>,
    args: Vec<String>,
    stdin: Option<String>,
    stdout: Option<String>,
    append: bool,
) -> StageAcc {
    StageAcc {
        program: match program {
            Some(p) => Some(p@),
            None => None,
        },
        args: args.deep_view(),
        stdin: match stdin {
            Some(p) => Some(p@),
            None => None,
        },
        stdout: match stdout {
            Some(p) => Some(p@),
            None => None,
        },
        append: append,
    }
}

/// Parse one stage out of `tokens[from..to]`: extract the redirections,
/// take the first remaining word as the program and the rest as arguments.
fn build_stage(tokens: &Vec<String>, from: usize, to: usize) -> (r: Result<Command, ParseError>)
    requires
        from < to <= tokens@.len(),
    ensures
        ({
            let ts = tokens.deep_view().subrange(from as int, to as int);
            &&& (r matches Ok(c) ==> wf_stage(c) && (spec_stage(ts, from as int) matches Ok(m)
                && stage_matches(c, m)))
            &&& (r matches Err(e) ==> spec_stage(ts, from as int) == Err::<
                StageModel,
                ParseError,
            >(e))
        }),
{
    let ghost ts = tokens.deep_view().subrange(from as int, to as int);
    let ghost base = from as int;
    let mut program: Option<String> = None;
    let mut args: Vec<String> = Vec::new();
    let mut stdin_file: Option<String> = None;
    let mut stdout_file: Option<String> = None;
    let mut append: bool = false;
    let mut i: usize = from;
    proof {
        assert(args.deep_view() =~= Seq::<Seq<char>>::empty());
        assert(acc_of(program, args, stdin_file, stdout_file, append) == StageAcc::init());
    }
    while i < to
        invariant
            from <= i <= to <= tokens@.len(),
            ts == tokens.deep_view().subrange(from as int, to as int),
            base == from as int,
            spec_stage(ts, base) == spec_stage_rec(
                ts,
                base,
                i - from,
                acc_of(program, args, stdin_file, stdout_file, append),
            ),
        decreases to - i,
    {
        let ghost k = i - from;
        proof {
            assert(ts[k] == tokens.deep_view()[i as int]);
        }
        let t = &tokens[i];
        if is_redirect_in_token(t) {
            if i + 1 < to {
                proof {
                    assert(ts[k + 1] == tokens.deep_view()[i + 1]);
                }
                stdin_file = Some(tokens[i + 1].clone());
                i = i + 2;
            } else {
                return Err(ParseError::MissingRedirectTarget { position: i });
            }
        } else if is_redirect_out_token(t) {
            if i + 1 < to {
                proof {
                    assert(ts[k + 1] == tokens.deep_view()[i + 1]);
                }
                stdout_file = Some(tokens[i + 1].clone());
                append = false;
                i = i + 2;
            } else {
                return Err(ParseError::MissingRedirectTarget { position: i });
            }
        } else if is_redirect_append_token(t) {
            if i + 1 < to {
                proof {
                    assert(ts[k + 1] == tokens.deep_view()[i + 1]);
                }
                stdout_file = Some(tokens[i + 1].clone());
                append = true;
                i = i + 2;
            } else {
                return Err(ParseError::MissingRedirectTarget { position: i });
            }
        } else if program.is_none() {
            program = Some(tokens[i].clone());
            i = i + 1;
        } else {
            let ghost old_args = args.deep_view();
            args.push(tokens[i].clone());
            proof {
                assert(args.deep_view() =~= old_args.push(ts[k]));
            }
            i = i + 1;
        }
    }
    match program {
        None => Err(ParseError::MissingProgram { position: from }),
        Some(p) => {
            if stdin_file.is_none() && stdout_file.is_none() {
                Ok(Command::Simple { program: p, args })
            } else {
                Ok(
                    Command::Redirected {
                        inner: Box::new(Command::Simple { program: p, args }),
                        stdin: stdin_file,
                        stdout: stdout_file,
                        append,
                    },
                )
            }
        },
    }
}

/// A scan that saw no pipe in `[from, j)` and stopped at the end or at a
/// pipe found exactly the first pipe.
proof fn lemma_find_pipe_exact(toks: Seq<Seq<char>>, from: int, j: int)
    requires
        0 <= from <= j <= toks.len(),
        forall|m: int| from <= m < j ==> !is_pipe(#[trigger] toks[m]),
        j == toks.len() || is_pipe(toks[j]),
    ensures
        find_pipe(toks, from) == j,
    decreases j - from,
{
    if from < j {
        lemma_find_pipe_exact(toks, from + 1, j);
    }
}

/// The loop relation of `build_command`: the stages already parsed,
/// together with whatever `spec_stages` makes of the rest of the line,
/// give exactly the stages of the whole line.
pub open spec fn stages_prefix_inv(toks: Seq<Seq<char>>, i: int, models: Seq<StageModel>) -> bool {
    match spec_stages(toks, i) {
        Ok(rest) => spec_build(toks) == Ok::<Seq<StageModel>, ParseError>(models + rest),
        Err(e) => spec_build(toks) == Err::<Seq<StageModel>, ParseError>(e),
    }
}

/// Build one command from the whole token sequence of a line: split on
/// pipes into stages, parse each stage, and wrap the stages in a
/// `Pipeline` only when there are at least two.  A malformed sequence
/// yields the `ParseError` that `spec_build` names and no command.
pub fn build_command(tokens: &Vec<String>) -> (r: Result<Command, ParseError>)
    requires
        tokens@.len() > 0,
    ensures
        ({
            let toks = tokens.deep_view();
            &&& (r matches Ok(c) ==> wf(c) && (spec_build(toks) matches Ok(ms)
                && command_matches(c, ms)))
            &&& (r matches Err(e) ==> spec_build(toks) == Err::<Seq<StageModel>, ParseError>(e))
        }),
{
    let ghost toks = tokens.deep_view();
    let n = tokens.len();
    let mut stages: Vec<Command> = Vec::new();
    let ghost mut models: Seq<StageModel> = Seq::empty();
    let mut i: usize = 0;
    proof {
        if spec_stages(toks, 0) is Ok {
            let rest = spec_stages(toks, 0)->Ok_0;
            assert(models + rest =~= rest);
        }
        assert(stages_prefix_inv(toks, 0, models));
    }
    loop
        invariant_except_break
            stages_prefix_inv(toks, i as int, models),
        invariant
            n == tokens@.len(),
            toks == tokens.deep_view(),
            toks.len() == n,
            0 < n,
            i <= n,
            stages@.len() == models.len(),
            forall|k: int|
                0 <= k < models.len() ==> stage_matches(#[trigger] stages@[k], models[k])
                    && wf_stage(stages@[k]),
        ensures
            1 <= models.len() == stages@.len(),
            forall|k: int|
                0 <= k < models.len() ==> stage_matches(#[trigger] stages@[k], models[k])
                    && wf_stage(stages@[k]),
            spec_build(toks) == Ok::<Seq<StageModel>, ParseError>(models),
        decreases n - i,
    {
        let mut j = i;
        while j < n && !is_pipe_token(&tokens[j])
            invariant
                n == tokens@.len(),
                toks == tokens.deep_view(),
                i <= j <= n,
                forall|m: int| i <= m < j ==> !is_pipe(#[trigger] toks[m]),
            decreases n - j,
        {
            j = j + 1;
        }
        proof {
            lemma_find_pipe_exact(toks, i as int, j as int);
        }
        if j == i {
            return Err(ParseError::EmptyStage { position: i });
        }
        let stage = match build_stage(tokens, i, j) {
            Err(e) => {
                return Err(e);
            },
            Ok(c) => c,
        };
        let ghost m = spec_stage(toks.subrange(i as int, j as int), i as int)->Ok_0;
        let ghost old_models = models;
        let ghost old_stages = stages@;
        stages.push(stage);
        proof {
            models = models + seq![m];
            assert forall|k: int| 0 <= k < models.len() implies stage_matches(
                #[trigger] stages@[k],
                models[k],
            ) && wf_stage(stages@[k]) by {
                if k < old_models.len() {
                    assert(stages@[k] == old_stages[k]);
                    assert(models[k] == old_models[k]);
                } else {
                    assert(stages@[k] == stage);
                    assert(models[k] == m);
                }
            }
        }
        if j == n {
            proof {
                assert(spec_stages(toks, i as int) == Ok::<Seq<StageModel>, ParseError>(seq![m]));
                assert(old_models + seq![m] =~= models);
            }
            break;
        }
        proof {
            if spec_stages(toks, j + 1) is Ok {
                let rest = spec_stages(toks, j + 1)->Ok_0;
                assert(spec_stages(toks, i as int) == Ok::<Seq<StageModel>, ParseError>(
                    seq![m] + rest,
                ));
                assert(old_models + (seq![m] + rest) =~= models + rest);
            }
        }
        i = j + 1;
    }
    if stages.len() == 1 {
        let c = stages.pop().unwrap();
        Ok(c)
    } else {
        Ok(Command::Pipeline { stages })
    }
}

} // verus!
