use rush::builder::{build_command, ParseError};
use rush::command::Command;
use rush::errors::{decimal_string, render_error, ShellError};
use rush::interp::{handle_command, loop_continues, prompt, Plan, ReadEvent};
use rush::tokenize::tokenize;

#[test]
fn tokenize_splits_words() {
    let tokens = tokenize("echo hello world");
    assert_eq!(tokens.len(), 3);
    assert_eq!(tokens[0], "echo");
    assert_eq!(tokens[1], "hello");
    assert_eq!(tokens[2], "world");
}

#[test]
fn tokenize_blank_line_yields_nothing() {
    assert_eq!(tokenize("").len(), 0);
    assert_eq!(tokenize("   \t  \n").len(), 0);
}

#[test]
fn tokenize_strips_line_terminator() {
    let tokens = tokenize("pwd\n");
    assert_eq!(tokens.len(), 1);
    assert_eq!(tokens[0], "pwd");
    let tokens = tokenize("pwd\r\n");
    assert_eq!(tokens.len(), 1);
    assert_eq!(tokens[0], "pwd");
}

#[test]
fn tokenize_collapses_blank_runs() {
    let tokens = tokenize("ls   -l\t \t/tmp");
    assert_eq!(tokens.len(), 3);
    assert_eq!(tokens[0], "ls");
    assert_eq!(tokens[1], "-l");
    assert_eq!(tokens[2], "/tmp");
}

#[test]
fn tokenize_then_rejoin_is_idempotent() {
    // A line whose interior whitespace is already single spaces is a fixed
    // point of tokenize-then-rejoin.
    let line = "ls -l /tmp";
    let tokens = tokenize(line);
    let rejoined = tokens.join(" ");
    assert_eq!(rejoined, line);
    let again = tokenize(&rejoined);
    assert_eq!(again, tokens);
}

#[test]
fn build_simple_command() {
    let tokens = tokenize("echo hi there");
    match build_command(&tokens) {
        Ok(Command::Simple { program, args }) => {
            assert_eq!(program, "echo");
            assert_eq!(args, vec!["hi".to_string(), "there".to_string()]);
        }
        other => panic!("expected a simple command, got {:?}", fmt_result(&other)),
    }
}

#[test]
fn build_output_redirection() {
    let tokens = tokenize("echo hello > f");
    match build_command(&tokens) {
        Ok(Command::Redirected { inner, stdin, stdout, append }) => {
            assert!(stdin.is_none());
            assert_eq!(stdout.as_deref(), Some("f"));
            assert!(!append);
            match *inner {
                Command::Simple { program, args } => {
                    assert_eq!(program, "echo");
                    assert_eq!(args, vec!["hello".to_string()]);
                }
                _ => panic!("inner command should be simple"),
            }
        }
        other => panic!("expected a redirected command, got {:?}", fmt_result(&other)),
    }
}

#[test]
fn build_append_redirection() {
    let tokens = tokenize("echo hello >> f");
    match build_command(&tokens) {
        Ok(Command::Redirected { stdout, append, .. }) => {
            assert_eq!(stdout.as_deref(), Some("f"));
            assert!(append);
        }
        other => panic!("expected a redirected command, got {:?}", fmt_result(&other)),
    }
}

#[test]
fn build_input_redirection() {
    let tokens = tokenize("wc -l < data");
    match build_command(&tokens) {
        Ok(Command::Redirected { inner, stdin, stdout, .. }) => {
            assert_eq!(stdin.as_deref(), Some("data"));
            assert!(stdout.is_none());
            match *inner {
                Command::Simple { program, args } => {
                    assert_eq!(program, "wc");
                    assert_eq!(args, vec!["-l".to_string()]);
                }
                _ => panic!("inner command should be simple"),
            }
        }
        other => panic!("expected a redirected command, got {:?}", fmt_result(&other)),
    }
}

#[test]
fn build_two_stage_pipeline() {
    let tokens = tokenize("yes | wc -l");
    match build_command(&tokens) {
        Ok(Command::Pipeline { stages }) => {
            assert_eq!(stages.len(), 2);
            assert!(matches!(&stages[0], Command::Simple { program, .. } if program == "yes"));
            assert!(matches!(&stages[1], Command::Simple { program, .. } if program == "wc"));
        }
        other => panic!("expected a pipeline, got {:?}", fmt_result(&other)),
    }
}

#[test]
fn build_three_stage_pipeline() {
    let tokens = tokenize("cat f | sort | uniq");
    match build_command(&tokens) {
        Ok(Command::Pipeline { stages }) => assert_eq!(stages.len(), 3),
        other => panic!("expected a pipeline, got {:?}", fmt_result(&other)),
    }
}

#[test]
fn single_stage_is_not_wrapped_in_a_pipeline() {
    let tokens = tokenize("ls");
    assert!(matches!(build_command(&tokens), Ok(Command::Simple { .. })));
}

#[test]
fn trailing_redirect_is_a_parse_error() {
    let tokens = tokenize("echo hello >");
    match build_command(&tokens) {
        Err(ParseError::MissingRedirectTarget { position }) => assert_eq!(position, 2),
        _ => panic!("expected a missing-target parse error"),
    }
}

#[test]
fn leading_pipe_is_a_parse_error() {
    let tokens = tokenize("| wc");
    match build_command(&tokens) {
        Err(ParseError::EmptyStage { position }) => assert_eq!(position, 0),
        _ => panic!("expected an empty-stage parse error"),
    }
}

#[test]
fn trailing_pipe_is_a_parse_error() {
    let tokens = tokenize("ls |");
    match build_command(&tokens) {
        Err(ParseError::EmptyStage { position }) => assert_eq!(position, 2),
        _ => panic!("expected an empty-stage parse error"),
    }
}

#[test]
fn adjacent_pipes_are_a_parse_error() {
    let tokens = tokenize("a | | b");
    match build_command(&tokens) {
        Err(ParseError::EmptyStage { position }) => assert_eq!(position, 2),
        _ => panic!("expected an empty-stage parse error"),
    }
}

#[test]
fn redirection_without_program_is_a_parse_error() {
    let tokens = tokenize("> f");
    match build_command(&tokens) {
        Err(ParseError::MissingProgram { position }) => assert_eq!(position, 0),
        _ => panic!("expected a missing-program parse error"),
    }
}

#[test]
fn handle_blank_line_plans_nothing() {
    assert!(matches!(handle_command("   \n"), Plan::Empty));
}

#[test]
fn handle_builtin_line_plans_the_builtin() {
    assert!(matches!(handle_command("cd /tmp\n"), Plan::Builtin { .. }));
    assert!(matches!(handle_command("pwd\n"), Plan::Builtin { .. }));
}

#[test]
fn handle_external_line_plans_a_command() {
    match handle_command("ls -l\n") {
        Plan::External { command } => match command {
            Command::Simple { program, args } => {
                assert_eq!(program, "ls");
                assert_eq!(args, vec!["-l".to_string()]);
            }
            _ => panic!("expected a simple command"),
        },
        _ => panic!("expected an external plan"),
    }
}

#[test]
fn handle_malformed_line_executes_nothing() {
    match handle_command("echo hello >\n") {
        Plan::Malformed { error } => {
            assert!(matches!(error, ParseError::MissingRedirectTarget { position: 2 }));
        }
        _ => panic!("a malformed line must yield a parse error and no command"),
    }
}

#[test]
fn decimal_rendering_is_exact() {
    assert_eq!(decimal_string(0), "0");
    assert_eq!(decimal_string(7), "7");
    assert_eq!(decimal_string(10), "10");
    assert_eq!(decimal_string(1234), "1234");
}

#[test]
fn parse_error_message_names_kind_and_position() {
    let e = ShellError::Parse { error: ParseError::EmptyStage { position: 3 } };
    assert_eq!(render_error(&e), "parse error: empty pipeline stage at token 3");
    let e = ShellError::Parse { error: ParseError::MissingRedirectTarget { position: 12 } };
    assert_eq!(
        render_error(&e),
        "parse error: missing redirection target at token 12"
    );
}

#[test]
fn error_messages_have_kind_specific_prefixes() {
    let not_found = ShellError::CommandNotFound { program: "nosuch".to_string() };
    assert_eq!(render_error(&not_found), "command not found: nosuch");
    let spawn = ShellError::SpawnFailed {
        program: "p".to_string(),
        message: "refused".to_string(),
    };
    assert_eq!(render_error(&spawn), "spawn failed: p: refused");
    let exec = ShellError::ExecutionFailed {
        program: "p".to_string(),
        message: "signal".to_string(),
    };
    assert_eq!(render_error(&exec), "execution failed: p: signal");
    let redir = ShellError::Redirection {
        path: "f".to_string(),
        message: "denied".to_string(),
    };
    assert_eq!(render_error(&redir), "redirection error: f: denied");
}

#[test]
fn loop_goes_on_only_while_lines_come() {
    assert!(loop_continues(&ReadEvent::Line { text: "ls\n".to_string() }));
    assert!(!loop_continues(&ReadEvent::EndOfInput));
    assert!(!loop_continues(&ReadEvent::ReadFailure));
}

#[test]
fn prompt_is_dollar_space() {
    assert_eq!(prompt(), "$ ");
}

fn fmt_result(r: &Result<Command, ParseError>) -> String {
    match r {
        Ok(Command::Simple { program, .. }) => format!("Simple {}", program),
        Ok(Command::Redirected { .. }) => "Redirected".to_string(),
        Ok(Command::Pipeline { .. }) => "Pipeline".to_string(),
        Err(e) => format!("{:?}", e),
    }
}
