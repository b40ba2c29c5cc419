use cwb::error::CwbError;
use cwb::executor::{
    BatchProgress, CommandBuilder, CommandExecutor, ExecMode, ExecutionRequest, ExecutionResult, ProcessOutcome,
    RunStep,
};

fn exited(success: bool, code: i32, out: &str, err: &str) -> ProcessOutcome {
    ProcessOutcome::Exited {
        success,
        code: Some(code),
        stdout: out.to_string(),
        stderr: err.to_string(),
        stdout_valid: true,
    }
}

fn tool() -> ExecutionRequest {
    CommandBuilder::new("tool").args(&["run", "-v"]).build()
}

fn req(program: &str) -> ExecutionRequest {
    CommandBuilder::new(program).arg("x").build()
}

#[test]
fn dry_run_never_spawns() {
    let ex = CommandExecutor::new(true, false);
    assert_eq!(ex.mode(true), ExecMode::DryRun);
    assert_eq!(ex.mode(false), ExecMode::DryRun);
    assert!(matches!(CommandExecutor::start(ex.mode(false)), RunStep::Done(ExecutionResult::DryRun)));
    assert!(ex.echoes_commands());
}

#[test]
fn live_modes_ask_for_a_process() {
    let ex = CommandExecutor::new(false, false);
    assert_eq!(ex.mode(true), ExecMode::Streamed);
    assert_eq!(ex.mode(false), ExecMode::Captured);
    assert!(matches!(CommandExecutor::start(ExecMode::Captured), RunStep::Spawn(ExecMode::Captured)));
    assert!(!ex.echoes_commands());
    assert!(CommandExecutor::new(false, true).echoes_commands());
}

#[test]
fn finish_maps_outcomes() {
    match CommandExecutor::finish(ExecMode::Captured, &tool(), exited(true, 0, "out", "")) {
        Ok(ExecutionResult::Captured { stdout }) => assert_eq!(stdout, "out"),
        _ => panic!("expected captured output"),
    }
    assert!(matches!(
        CommandExecutor::finish(ExecMode::Streamed, &tool(), exited(true, 0, "", "")),
        Ok(ExecutionResult::Streamed)
    ));
    match CommandExecutor::finish(ExecMode::Captured, &tool(), exited(false, 2, "o", "e")) {
        Err(CwbError::ExecutionFailed { command, exit_code, stdout, stderr }) => {
            assert_eq!(command, "tool run -v");
            assert_eq!(exit_code, Some(2));
            assert_eq!(stdout, "o");
            assert_eq!(stderr, "e");
        }
        _ => panic!("expected ExecutionFailed"),
    }
    match CommandExecutor::finish(ExecMode::Streamed, &tool(), exited(false, 1, "o", "e")) {
        Err(CwbError::ExecutionFailed { command, exit_code, stdout, stderr }) => {
            assert_eq!(command, "tool run -v");
            assert_eq!(exit_code, Some(1));
            assert_eq!(stdout, "");
            assert_eq!(stderr, "");
        }
        _ => panic!("expected ExecutionFailed"),
    }
    match CommandExecutor::finish(
        ExecMode::Streamed,
        &tool(),
        ProcessOutcome::SpawnError { message: "not found".to_string() },
    ) {
        Err(CwbError::SpawnFailed { program, command, message }) => {
            assert_eq!(program, "tool");
            assert_eq!(command, "tool run -v");
            assert_eq!(message, "not found");
        }
        _ => panic!("expected SpawnFailed"),
    }
    assert!(matches!(
        CommandExecutor::finish(ExecMode::Captured, &tool(), ProcessOutcome::Panicked),
        Err(CwbError::TaskPanicked)
    ));
}

#[test]
fn captured_output_must_be_utf8() {
    let outcome = ProcessOutcome::Exited {
        success: true,
        code: Some(0),
        stdout: "\u{FFFD}".to_string(),
        stderr: String::new(),
        stdout_valid: false,
    };
    match CommandExecutor::finish(ExecMode::Captured, &tool(), outcome) {
        Err(CwbError::InvalidOutput { command }) => assert_eq!(command, "tool run -v"),
        _ => panic!("expected InvalidOutput"),
    }
}

#[test]
fn batch_member_two_missing_executable() {
    let requests = vec![req("echo"), req("no-such-tool"), req("printf")];
    let outcomes = vec![
        exited(true, 0, "one", ""),
        ProcessOutcome::SpawnError { message: "No such file or directory".to_string() },
        exited(true, 0, "three", ""),
    ];
    let report = CommandExecutor::collect_batch(&requests, outcomes);
    assert_eq!(report.members.len(), 3);
    assert!(matches!(&report.members[0], Ok(ExecutionResult::Captured { stdout }) if stdout == "one"));
    assert!(matches!(
        &report.members[1],
        Err(CwbError::SpawnFailed { program, command, .. }) if program == "no-such-tool" && command == "no-such-tool x"
    ));
    assert!(matches!(&report.members[2], Ok(ExecutionResult::Captured { stdout }) if stdout == "three"));
    assert_eq!(report.failed_members(), vec![1]);
    match report.into_result() {
        Err(CwbError::BatchFailed { failed, total, cause }) => {
            assert_eq!(failed, vec![1]);
            assert_eq!(total, 3);
            assert!(matches!(*cause, CwbError::SpawnFailed { ref command, .. } if command == "no-such-tool x"));
        }
        _ => panic!("expected BatchFailed"),
    }
}

#[test]
fn batch_keeps_positions_when_all_succeed() {
    let requests = vec![req("a"), req("b")];
    let report = CommandExecutor::collect_batch(&requests, vec![exited(true, 0, "A", ""), exited(true, 0, "B", "")]);
    assert!(report.failed_members().is_empty());
    let results = report.into_result().ok().unwrap();
    assert!(matches!(&results[0], ExecutionResult::Captured { stdout } if stdout == "A"));
    assert!(matches!(&results[1], ExecutionResult::Captured { stdout } if stdout == "B"));
}

#[test]
fn batch_names_every_failed_member() {
    let requests = vec![req("a"), req("b"), req("c")];
    let report = CommandExecutor::collect_batch(
        &requests,
        vec![exited(false, 3, "", "bad"), exited(true, 0, "", ""), ProcessOutcome::Panicked],
    );
    match report.into_result() {
        Err(CwbError::BatchFailed { failed, total, cause }) => {
            assert_eq!(failed, vec![0, 2]);
            assert_eq!(total, 3);
            assert!(matches!(
                *cause,
                CwbError::ExecutionFailed { exit_code: Some(3), ref command, ref stderr, .. } if command == "a x" && stderr == "bad"
            ));
        }
        _ => panic!("expected BatchFailed"),
    }
}

#[test]
fn dry_run_batch_short_circuits() {
    let dry = CommandExecutor::new(true, false);
    let results = dry.start_batch(3).unwrap();
    assert_eq!(results.len(), 3);
    assert!(results.iter().all(|r| matches!(r, ExecutionResult::DryRun)));
    assert!(CommandExecutor::new(false, false).start_batch(3).is_none());
    assert_eq!(dry.start_batch(0).unwrap().len(), 0);
}

#[test]
fn progress_counts_up_to_total() {
    let mut p = BatchProgress::new(2);
    assert_eq!(p.completed(), 0);
    p.advance();
    p.advance();
    assert_eq!(p.completed(), 2);
    p.advance();
    assert_eq!(p.completed(), 2);
    assert_eq!(p.total(), 2);
}

#[test]
fn probe_in_dry_run_is_true() {
    let dry = CommandExecutor::new(true, false);
    assert!(matches!(dry.check_command_exists("docker"), Ok(true)));
    match CommandExecutor::new(false, false).check_command_exists("docker") {
        Err(r) => {
            assert_eq!(r.program, "which");
            assert_eq!(r.args, vec!["docker".to_string()]);
        }
        Ok(_) => panic!("expected a lookup request"),
    }
    assert!(CommandExecutor::probe_found(&exited(true, 0, "/usr/bin/docker", "")));
    assert!(!CommandExecutor::probe_found(&exited(false, 1, "", "")));
    assert!(!CommandExecutor::probe_found(&ProcessOutcome::SpawnError { message: String::new() }));
}

#[test]
fn builder_collects_parts() {
    let r = CommandBuilder::new("npm")
        .args(&["run", "build"])
        .arg("--prod")
        .working_dir("./ui")
        .env("NODE_ENV", "production")
        .build();
    assert_eq!(r.program, "npm");
    assert_eq!(r.args, vec!["run".to_string(), "build".to_string(), "--prod".to_string()]);
    assert_eq!(r.working_dir.as_deref(), Some("./ui"));
    assert_eq!(r.env, vec![("NODE_ENV".to_string(), "production".to_string())]);
    assert_eq!(r.command_line(), "npm run build --prod");
}

#[test]
fn command_line_without_arguments() {
    let r = CommandBuilder::new("ls").build();
    assert_eq!(r.command_line(), "ls ");
    assert!(r.working_dir.is_none());
}
