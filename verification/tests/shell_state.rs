use rush::builder::build_command;
use rush::builtins::{
    apply_chdir, builtins, cd_home_target, cd_usage_error, pwd, resolve_path, BuiltinCall,
    ChdirOutcome, ShellState,
};
use rush::errors::{render_error, ShellError};
use rush::exec_plan::{
    execution_plan, pipeline_status, spawn_failure_error, wait_status, SpawnFailure, StdinSource,
    StdoutSink, WaitOutcome,
};
use rush::tokenize::tokenize;

#[test]
fn dispatcher_recognizes_cd_with_one_argument() {
    let tokens = tokenize("cd /tmp");
    match builtins(&tokens) {
        Some(BuiltinCall::CdPath { path }) => assert_eq!(path, "/tmp"),
        _ => panic!("cd with one argument should be recognized"),
    }
}

#[test]
fn dispatcher_recognizes_bare_cd_as_home() {
    let tokens = tokenize("cd");
    assert!(matches!(builtins(&tokens), Some(BuiltinCall::CdHome)));
}

#[test]
fn dispatcher_flags_cd_with_extra_arguments() {
    let tokens = tokenize("cd a b");
    assert!(matches!(builtins(&tokens), Some(BuiltinCall::CdUsage)));
}

#[test]
fn dispatcher_recognizes_pwd() {
    let tokens = tokenize("pwd");
    assert!(matches!(builtins(&tokens), Some(BuiltinCall::Pwd)));
}

#[test]
fn dispatcher_declines_everything_else() {
    assert!(builtins(&tokenize("ls -l")).is_none());
    assert!(builtins(&tokenize("cdx")).is_none());
    assert!(builtins(&tokenize("")).is_none());
}

#[test]
fn resolve_keeps_absolute_paths() {
    let state = ShellState { cwd: "/home/user".to_string() };
    assert_eq!(resolve_path(&state, &"/etc".to_string()), "/etc");
}

#[test]
fn resolve_joins_relative_paths_to_cwd() {
    let state = ShellState { cwd: "/home/user".to_string() };
    assert_eq!(resolve_path(&state, &"docs".to_string()), "/home/user/docs");
    let root = ShellState { cwd: "/".to_string() };
    assert_eq!(resolve_path(&root, &"etc".to_string()), "/etc");
}

#[test]
fn cd_then_pwd_reports_the_target() {
    let mut state = ShellState { cwd: "/home/user".to_string() };
    let target = resolve_path(&state, &"/tmp".to_string());
    let r = apply_chdir(&mut state, &target, ChdirOutcome::Accepted);
    assert!(r.is_ok());
    assert_eq!(pwd(&state), "/tmp");
}

#[test]
fn cd_then_pwd_reports_a_resolved_relative_target() {
    let mut state = ShellState { cwd: "/home".to_string() };
    let target = resolve_path(&state, &"user".to_string());
    let r = apply_chdir(&mut state, &target, ChdirOutcome::Accepted);
    assert!(r.is_ok());
    assert_eq!(pwd(&state), "/home/user");
}

#[test]
fn failed_cd_leaves_the_directory_unchanged() {
    let mut state = ShellState { cwd: "/home/user".to_string() };
    let before = pwd(&state);
    let target = resolve_path(&state, &"/nope".to_string());
    let r = apply_chdir(
        &mut state,
        &target,
        ChdirOutcome::Refused { message: "No such file or directory".to_string() },
    );
    match r {
        Err(e) => assert_eq!(render_error(&e), "cd: /nope: No such file or directory"),
        Ok(()) => panic!("a refused change must surface an error"),
    }
    assert_eq!(pwd(&state), before);
}

#[test]
fn bare_cd_moves_to_the_home_directory() {
    let mut state = ShellState { cwd: "/".to_string() };
    let target = match cd_home_target(Some("/home/user".to_string())) {
        Ok(t) => t,
        Err(_) => panic!("a present home directory must be accepted"),
    };
    let r = apply_chdir(&mut state, &target, ChdirOutcome::Accepted);
    assert!(r.is_ok());
    assert_eq!(pwd(&state), "/home/user");
}

#[test]
fn bare_cd_without_home_reports_the_fixed_message() {
    match cd_home_target(None) {
        Err(e) => assert_eq!(render_error(&e), "cd: no directory to change to"),
        Ok(_) => panic!("a missing home directory must surface an error"),
    }
}

#[test]
fn cd_usage_error_is_reported_not_fatal() {
    let e = cd_usage_error();
    assert_eq!(render_error(&e), "cd: too many arguments");
}

#[test]
fn single_command_plan_inherits_both_streams() {
    let tokens = tokenize("ls -l");
    let command = build_command(&tokens).unwrap_or_else(|_| panic!("line should parse"));
    let plan = execution_plan(&command);
    assert_eq!(plan.len(), 1);
    assert_eq!(plan[0].program, "ls");
    assert_eq!(plan[0].args, vec!["-l".to_string()]);
    assert!(matches!(plan[0].stdin, StdinSource::Inherit));
    assert!(matches!(plan[0].stdout, StdoutSink::Inherit));
}

#[test]
fn pipeline_plan_wires_adjacent_stages() {
    let tokens = tokenize("yes | wc -l");
    let command = build_command(&tokens).unwrap_or_else(|_| panic!("line should parse"));
    let plan = execution_plan(&command);
    assert_eq!(plan.len(), 2);
    assert_eq!(plan[0].program, "yes");
    assert!(matches!(plan[0].stdin, StdinSource::Inherit));
    assert!(matches!(plan[0].stdout, StdoutSink::PipeToNext));
    assert_eq!(plan[1].program, "wc");
    assert!(matches!(plan[1].stdin, StdinSource::PipeFromPrevious));
    assert!(matches!(plan[1].stdout, StdoutSink::Inherit));
}

#[test]
fn redirection_wins_over_the_pipe() {
    let tokens = tokenize("a | b > out");
    let command = build_command(&tokens).unwrap_or_else(|_| panic!("line should parse"));
    let plan = execution_plan(&command);
    assert_eq!(plan.len(), 2);
    assert!(matches!(plan[0].stdout, StdoutSink::PipeToNext));
    match &plan[1].stdout {
        StdoutSink::File { path, append } => {
            assert_eq!(path, "out");
            assert!(!*append);
        }
        _ => panic!("the redirected stage must write to the file"),
    }
    assert!(matches!(plan[1].stdin, StdinSource::PipeFromPrevious));
}

#[test]
fn interior_stage_is_wired_to_both_neighbours() {
    let tokens = tokenize("cat f | sort | uniq");
    let command = build_command(&tokens).unwrap_or_else(|_| panic!("line should parse"));
    let plan = execution_plan(&command);
    assert_eq!(plan.len(), 3);
    assert!(matches!(plan[1].stdin, StdinSource::PipeFromPrevious));
    assert!(matches!(plan[1].stdout, StdoutSink::PipeToNext));
    assert!(matches!(plan[2].stdin, StdinSource::PipeFromPrevious));
    assert!(matches!(plan[2].stdout, StdoutSink::Inherit));
}

#[test]
fn input_redirection_wins_on_the_first_stage() {
    let tokens = tokenize("wc -l < data | sort");
    let command = build_command(&tokens).unwrap_or_else(|_| panic!("line should parse"));
    let plan = execution_plan(&command);
    assert_eq!(plan.len(), 2);
    match &plan[0].stdin {
        StdinSource::File { path } => assert_eq!(path, "data"),
        _ => panic!("the redirected stage must read the file"),
    }
    assert!(matches!(plan[0].stdout, StdoutSink::PipeToNext));
}

#[test]
fn pipeline_status_is_the_last_stages() {
    assert_eq!(pipeline_status(&vec![0, 1, 42]), 42);
    assert_eq!(pipeline_status(&vec![7]), 7);
}

#[test]
fn unresolvable_program_is_command_not_found() {
    let e = spawn_failure_error(&"nosuch".to_string(), SpawnFailure::NotFound);
    match &e {
        ShellError::CommandNotFound { program } => assert_eq!(program, "nosuch"),
        _ => panic!("an unresolvable name must be CommandNotFound"),
    }
    assert_eq!(render_error(&e), "command not found: nosuch");
}

#[test]
fn refused_spawn_is_spawn_failed() {
    let e = spawn_failure_error(
        &"p".to_string(),
        SpawnFailure::Refused { message: "permission denied".to_string() },
    );
    assert!(matches!(e, ShellError::SpawnFailed { .. }));
    assert_eq!(render_error(&e), "spawn failed: p: permission denied");
}

#[test]
fn normal_exit_yields_its_code() {
    match wait_status(&"p".to_string(), WaitOutcome::Exited { code: 3 }) {
        Ok(code) => assert_eq!(code, 3),
        Err(_) => panic!("a normal exit is not an error"),
    }
}

#[test]
fn abnormal_end_is_execution_failed() {
    match wait_status(&"p".to_string(), WaitOutcome::Abnormal { message: "signal 9".to_string() }) {
        Err(e) => assert_eq!(render_error(&e), "execution failed: p: signal 9"),
        Ok(_) => panic!("an abnormal end must surface an error"),
    }
}
