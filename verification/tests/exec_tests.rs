use minishell::builtins::{handle, BuiltinAction};
use minishell::builtins::cd::target;
use minishell::builtins::exit::run as exit_run;
use minishell::digits::{i32_to_string, parse_i32};
use minishell::error::ShellError;
use minishell::executor::pipeline::{PipelineRun, RunStep};
use minishell::executor::{pipeline_outcome, status_outcome, ExecPlan};
use minishell::parser::parse;
use minishell::shell::{run, ShellSignal};

fn parsed(line: &str) -> minishell::parser::ast::SimpleCommand {
    match parse(line) {
        Ok(minishell::parser::ast::Command::Simple(sc)) => sc,
        _ => panic!("expected a single command"),
    }
}

fn expect_builtin_error(r: Result<Option<BuiltinAction>, ShellError>) -> String {
    match r {
        Err(e) => {
            assert!(matches!(&e, ShellError::Builtin(_)));
            e.message()
        },
        _ => panic!("expected a builtin error"),
    }
}

#[test]
fn dispatch_ignores_unknown_programs() {
    for name in ["ls", "echo", "cdd", "exitt", "Cd", "pw", ""] {
        let line = if name.is_empty() { "x".to_string() } else { format!("{} arg", name) };
        let mut cmd = parsed(&line);
        cmd.program = name.to_string();
        let r = handle(&cmd, Some("/home/me"));
        assert!(matches!(r, Ok(None)), "{} should not be a builtin", name);
    }
}

#[test]
fn dispatch_cd_with_argument() {
    let cmd = parsed("cd /tmp");
    match handle(&cmd, Some("/home/me")) {
        Ok(Some(BuiltinAction::Chdir(p))) => assert_eq!(p, "/tmp"),
        _ => panic!("expected a directory change"),
    }
}

#[test]
fn dispatch_cd_without_argument_uses_home() {
    let cmd = parsed("cd");
    match handle(&cmd, Some("/home/me")) {
        Ok(Some(BuiltinAction::Chdir(p))) => assert_eq!(p, "/home/me"),
        _ => panic!("expected a directory change"),
    }
}

#[test]
fn dispatch_cd_tilde_uses_home() {
    let cmd = parsed("cd ~");
    match handle(&cmd, Some("/home/me")) {
        Ok(Some(BuiltinAction::Chdir(p))) => assert_eq!(p, "/home/me"),
        _ => panic!("expected a directory change"),
    }
}

#[test]
fn dispatch_cd_without_home_fails() {
    let cmd = parsed("cd");
    let msg = expect_builtin_error(handle(&cmd, None));
    assert_eq!(msg, "Builtin error: HOME not set");
}

#[test]
fn dispatch_cd_keeps_nonexistent_path() {
    // The dispatcher only decides the target; whether the directory exists
    // is for the operating system call that carries the action out.
    let cmd = parsed("cd /nonexistent");
    match handle(&cmd, Some("/home/me")) {
        Ok(Some(BuiltinAction::Chdir(p))) => assert_eq!(p, "/nonexistent"),
        _ => panic!("expected a directory change"),
    }
}

#[test]
fn cd_target_prefers_argument() {
    let cmd = parsed("cd /var/log extra");
    match target(&cmd, Some("/home/me")) {
        Ok(p) => assert_eq!(p, "/var/log"),
        _ => panic!("expected a target"),
    }
}

#[test]
fn dispatch_pwd() {
    let cmd = parsed("pwd");
    assert!(matches!(handle(&cmd, None), Ok(Some(BuiltinAction::PrintCwd))));
}

#[test]
fn exit_defaults_to_zero() {
    let cmd = parsed("exit");
    match exit_run(&cmd) {
        Ok(ShellSignal::Exit(c)) => assert_eq!(c, 0),
        _ => panic!("expected an exit signal"),
    }
}

#[test]
fn exit_reads_code() {
    let cmd = parsed("exit 3");
    match exit_run(&cmd) {
        Ok(ShellSignal::Exit(c)) => assert_eq!(c, 3),
        _ => panic!("expected an exit signal"),
    }
}

#[test]
fn exit_negative_code() {
    let cmd = parsed("exit -5");
    match exit_run(&cmd) {
        Ok(ShellSignal::Exit(c)) => assert_eq!(c, -5),
        _ => panic!("expected an exit signal"),
    }
}

#[test]
fn exit_rejects_non_number() {
    let cmd = parsed("exit soon");
    match exit_run(&cmd) {
        Err(e) => assert_eq!(e.message(), "Builtin error: exit: invalid exit code"),
        _ => panic!("expected a builtin error"),
    }
}

#[test]
fn parse_i32_accepts_plain_and_signed() {
    assert_eq!(parse_i32("0"), Some(0));
    assert_eq!(parse_i32("42"), Some(42));
    assert_eq!(parse_i32("-7"), Some(-7));
    assert_eq!(parse_i32("+13"), Some(13));
    assert_eq!(parse_i32("2147483647"), Some(2147483647));
    assert_eq!(parse_i32("-2147483648"), Some(-2147483648));
}

#[test]
fn parse_i32_rejects_garbage_and_overflow() {
    assert_eq!(parse_i32(""), None);
    assert_eq!(parse_i32("-"), None);
    assert_eq!(parse_i32("+"), None);
    assert_eq!(parse_i32("12a"), None);
    assert_eq!(parse_i32("a12"), None);
    assert_eq!(parse_i32("2147483648"), None);
    assert_eq!(parse_i32("-2147483649"), None);
    assert_eq!(parse_i32("99999999999999999999"), None);
}

#[test]
fn i32_to_string_formats() {
    assert_eq!(i32_to_string(0), "0");
    assert_eq!(i32_to_string(7), "7");
    assert_eq!(i32_to_string(-42), "-42");
    assert_eq!(i32_to_string(123456), "123456");
    assert_eq!(i32_to_string(2147483647), "2147483647");
    assert_eq!(i32_to_string(-2147483648), "-2147483648");
}

#[test]
fn run_plans_single_spawn() {
    match run("ls -l", None) {
        Ok(ExecPlan::Single(p)) => {
            assert_eq!(p.program, "ls");
            assert_eq!(p.args, vec!["-l".to_string()]);
            assert!(p.redirections.is_empty());
            assert!(!p.stdin_from_pipe);
            assert!(!p.stdout_to_pipe);
        },
        _ => panic!("expected a single spawn plan"),
    }
}

#[test]
fn run_plans_builtin() {
    match run("exit 2", None) {
        Ok(ExecPlan::Builtin(BuiltinAction::Exit(c))) => assert_eq!(c, 2),
        _ => panic!("expected a builtin plan"),
    }
}

#[test]
fn run_plans_pipeline_wiring() {
    match run("a | b | c", None) {
        Ok(ExecPlan::Pipeline(plans)) => {
            assert_eq!(plans.len(), 3);
            assert!(!plans[0].stdin_from_pipe);
            assert!(plans[0].stdout_to_pipe);
            assert!(plans[1].stdin_from_pipe);
            assert!(plans[1].stdout_to_pipe);
            assert!(plans[2].stdin_from_pipe);
            assert!(!plans[2].stdout_to_pipe);
            assert_eq!(plans[1].program, "b");
        },
        _ => panic!("expected a pipeline plan"),
    }
}

#[test]
fn run_pipeline_ignores_builtin_names() {
    // A pipeline stage is never offered to the builtin dispatcher.
    match run("cd /tmp | pwd", None) {
        Ok(ExecPlan::Pipeline(plans)) => {
            assert_eq!(plans.len(), 2);
            assert_eq!(plans[0].program, "cd");
            assert_eq!(plans[1].program, "pwd");
        },
        _ => panic!("expected a pipeline plan"),
    }
}

#[test]
fn run_surfaces_parse_errors() {
    match run("a |", None) {
        Err(e) => assert_eq!(e.message(), "Parse error: Empty command"),
        _ => panic!("expected a parse error"),
    }
}

#[test]
fn status_outcome_success_continues() {
    assert!(matches!(status_outcome(true, Some(0)), Ok(ShellSignal::Continue)));
}

#[test]
fn status_outcome_failure_names_code() {
    match status_outcome(false, Some(3)) {
        Err(e) => assert_eq!(e.message(), "Execution error: Exited with code 3"),
        _ => panic!("expected an execution error"),
    }
}

#[test]
fn status_outcome_signal_death() {
    match status_outcome(false, None) {
        Err(e) => assert_eq!(e.message(), "Execution error: Terminated by signal"),
        _ => panic!("expected an execution error"),
    }
}

#[test]
fn pipeline_outcome_all_success_continues() {
    let statuses = vec![(true, Some(0)), (true, Some(0)), (true, Some(0))];
    assert!(matches!(pipeline_outcome(None, &statuses), Ok(ShellSignal::Continue)));
}

#[test]
fn pipeline_outcome_no_stages_continues() {
    let statuses: Vec<(bool, Option<i32>)> = vec![];
    assert!(matches!(pipeline_outcome(None, &statuses), Ok(ShellSignal::Continue)));
}

#[test]
fn pipeline_outcome_names_first_failing_stage() {
    let statuses = vec![(true, Some(0)), (false, Some(2)), (false, Some(3))];
    match pipeline_outcome(None, &statuses) {
        Err(e) => assert_eq!(e.message(), "Execution error: Exited with code 2"),
        _ => panic!("expected an execution error"),
    }
}

#[test]
fn pipeline_outcome_failing_stage_without_code() {
    let statuses = vec![(true, Some(0)), (false, None)];
    match pipeline_outcome(None, &statuses) {
        Err(e) => assert_eq!(e.message(), "Execution error: Terminated by signal"),
        _ => panic!("expected an execution error"),
    }
}

#[test]
fn pipeline_outcome_one_failing_stage_is_failure() {
    // The analogue of `echo x | false`: the first stage succeeds, the
    // second exits non-zero, and the pipeline must not report success.
    let statuses = vec![(true, Some(0)), (false, Some(1))];
    match pipeline_outcome(None, &statuses) {
        Err(e) => assert_eq!(e.message(), "Execution error: Exited with code 1"),
        _ => panic!("expected an execution error"),
    }
}

#[test]
fn pipeline_outcome_spawn_error_wins() {
    let statuses = vec![(false, Some(2))];
    match pipeline_outcome(Some(ShellError::Io("no such program".to_string())), &statuses) {
        Err(e) => assert_eq!(e.message(), "IO error: no such program"),
        _ => panic!("expected the spawn error back"),
    }
}

#[test]
fn error_messages_name_their_kind() {
    assert_eq!(
        ShellError::Io("broken pipe".to_string()).message(),
        "IO error: broken pipe"
    );
    assert_eq!(ShellError::Parse("x".to_string()).message(), "Parse error: x");
    assert_eq!(ShellError::Exec("x".to_string()).message(), "Execution error: x");
    assert_eq!(ShellError::Builtin("x".to_string()).message(), "Builtin error: x");
}

#[test]
fn pipeline_run_reaps_every_spawned_stage() {
    // All three stages start: three spawns, then three waits, then done.
    let mut engine = PipelineRun::new(3);
    let mut spawned = 0;
    let mut waited = 0;
    loop {
        match engine.next_step() {
            RunStep::Spawn(i) => {
                assert_eq!(i, spawned);
                spawned += 1;
                engine = engine.after_spawn_ok();
            },
            RunStep::Wait(j) => {
                assert_eq!(j, waited);
                waited += 1;
                engine = engine.after_reap();
            },
            RunStep::Done => break,
        }
    }
    assert_eq!(spawned, 3);
    assert_eq!(waited, 3);
    assert_eq!(engine.reaped, engine.spawned);
}

#[test]
fn pipeline_run_failed_spawn_still_reaps_started() {
    // The second spawn fails: the one started child is still waited on,
    // and no further stage starts.
    let mut engine = PipelineRun::new(3);
    let mut waited = 0;
    let mut spawn_attempts = 0;
    loop {
        match engine.next_step() {
            RunStep::Spawn(i) => {
                spawn_attempts += 1;
                if i == 1 {
                    engine = engine.after_spawn_failure();
                } else {
                    engine = engine.after_spawn_ok();
                }
            },
            RunStep::Wait(_) => {
                waited += 1;
                engine = engine.after_reap();
            },
            RunStep::Done => break,
        }
    }
    assert_eq!(spawn_attempts, 2);
    assert_eq!(engine.spawned, 1);
    assert_eq!(waited, 1);
    assert_eq!(engine.reaped, engine.spawned);
    assert!(engine.failed);
}
