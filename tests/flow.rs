use cwb::error::CwbError;
use cwb::executor::ExecutionResult;
use cwb::flow::{streamed_step, Flow, PlanStep};

fn steps(tolerate: bool) -> Vec<PlanStep> {
    vec![
        streamed_step("uv", &["lock", "--dry-run"], None, tolerate),
        streamed_step("npm", &["outdated"], Some("ui"), tolerate),
    ]
}

#[test]
fn fatal_failure_stops_the_flow() {
    let mut f = Flow::new(steps(false));
    assert_eq!(f.next_step().unwrap().request.program, "uv");
    f.record(Err(CwbError::ExecutionFailed {
        command: "uv lock --dry-run".to_string(),
        exit_code: Some(1),
        stdout: String::new(),
        stderr: String::new(),
    }));
    assert!(f.next_step().is_none());
    match f.finish() {
        Err(CwbError::ExecutionFailed { command, exit_code, .. }) => {
            assert_eq!(command, "uv lock --dry-run");
            assert_eq!(exit_code, Some(1));
        }
        _ => panic!("expected the failed step's error"),
    }
}

#[test]
fn tolerated_failure_goes_on() {
    let mut f = Flow::new(steps(true));
    f.record(Err(CwbError::TaskPanicked));
    let next = f.next_step().unwrap();
    assert_eq!(next.request.program, "npm");
    assert_eq!(next.request.working_dir.as_deref(), Some("ui"));
    f.record(Ok(ExecutionResult::Streamed));
    assert!(f.next_step().is_none());
    assert!(f.finish().is_ok());
}
