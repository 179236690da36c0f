use nomad_exec::allocation::{Allocation, TaskEvent, TaskState};
use nomad_exec::error::ExecutionError;
use nomad_exec::job::JobOutput;
use nomad_exec::lifecycle::{Controller, Event, Phase};
use nomad_exec::response::{HttpReply, ReplyBody};

fn controller(deadline_ms: u64, interval_ms: u64) -> Controller {
    Controller::new(
        "execute-rust-0000".to_string(),
        "execute-rust".to_string(),
        deadline_ms,
        interval_ms,
    )
}

fn completed_allocation(alloc_id: &str, task_name: &str, exit_code: i64) -> Allocation {
    Allocation {
        id: Some(alloc_id.to_string()),
        task_states: Some(vec![(
            task_name.to_string(),
            TaskState {
                events: Some(vec![TaskEvent {
                    event_type: Some("Terminated".to_string()),
                    exit_code: Some(exit_code),
                    message: None,
                }]),
            },
        )]),
    }
}

fn finish(c: &Controller) -> (&Result<JobOutput, ExecutionError>, bool) {
    match &c.phase {
        Phase::Finished { result, stop_required } => (result, *stop_required),
        _ => panic!("run is not finished"),
    }
}

#[test]
fn happy_path_success() {
    let mut c = controller(20_000, 1_000);
    assert!(matches!(c.phase, Phase::Submitting));

    c.step(Event::SubmitDone { result: Ok(()) });
    assert!(matches!(c.phase, Phase::Polling));

    for status in ["pending", "running"] {
        c.step(Event::StatusDone {
            result: Ok(Some(status.to_string())),
        });
        assert!(matches!(c.phase, Phase::Polling));
    }
    c.step(Event::StatusDone {
        result: Ok(Some("dead".to_string())),
    });
    assert!(matches!(c.phase, Phase::Listing));

    c.step(Event::AllocsDone {
        result: Ok(vec![completed_allocation("alloc-1", "execute-rust", 0)]),
    });
    match &c.phase {
        Phase::ReadingStdout { alloc_id, path } => {
            assert_eq!(alloc_id, "alloc-1");
            assert_eq!(path, "alloc/logs/execute-rust.stdout.0");
        }
        _ => panic!("expected the stdout read"),
    }

    c.step(Event::StdoutDone {
        result: Ok("hi\n".to_string()),
    });
    match &c.phase {
        Phase::ReadingStderr { alloc_id, path, stdout } => {
            assert_eq!(alloc_id, "alloc-1");
            assert_eq!(path, "alloc/logs/execute-rust.stderr.0");
            assert_eq!(stdout, "hi\n");
        }
        _ => panic!("expected the stderr read"),
    }

    c.step(Event::StderrDone {
        result: Ok("".to_string()),
    });
    let (result, stop_required) = finish(&c);
    assert!(!stop_required);
    let output = result.as_ref().expect("expected success");
    assert_eq!(output.stdout, "hi\n");
    assert_eq!(output.stderr, "");
    assert_eq!(c.submit_calls, 1);
    assert_eq!(c.status_reads, 3);
    assert_eq!(c.list_calls, 1);
    assert_eq!(c.stdout_reads, 1);
    assert_eq!(c.stderr_reads, 1);
}

#[test]
fn timeout_after_budget() {
    let mut c = controller(2_000, 500);
    c.step(Event::SubmitDone { result: Ok(()) });
    let mut polls: u64 = 0;
    while matches!(c.phase, Phase::Polling) {
        c.step(Event::StatusDone {
            result: Ok(Some("running".to_string())),
        });
        polls += 1;
        assert!(polls <= 5, "the poll loop must stop within the budget");
    }
    let (result, stop_required) = finish(&c);
    assert!(stop_required, "a timed-out job must be stopped");
    assert!(matches!(result, Err(ExecutionError::TimeoutError)));
    assert_eq!(polls, 4, "2000 ms of budget at 500 ms per poll");
    assert_eq!(c.elapsed_ms, 2_000);
}

#[test]
fn submit_failure_no_stop() {
    let mut c = controller(20_000, 1_000);
    c.step(Event::SubmitDone {
        result: Err("connection refused".to_string()),
    });
    let (result, stop_required) = finish(&c);
    assert!(!stop_required, "nothing was created, nothing to stop");
    match result {
        Err(ExecutionError::NomadError(m)) => assert_eq!(m, "connection refused"),
        _ => panic!("expected the upstream error"),
    }
}

#[test]
fn status_failure_stops_job() {
    let mut c = controller(20_000, 1_000);
    c.step(Event::SubmitDone { result: Ok(()) });
    c.step(Event::StatusDone {
        result: Err("status unavailable".to_string()),
    });
    let (result, stop_required) = finish(&c);
    assert!(stop_required);
    assert!(matches!(result, Err(ExecutionError::NomadError(_))));
}

#[test]
fn no_allocations_stops_job() {
    let mut c = controller(20_000, 1_000);
    c.step(Event::SubmitDone { result: Ok(()) });
    c.step(Event::StatusDone {
        result: Ok(Some("dead".to_string())),
    });
    c.step(Event::AllocsDone { result: Ok(vec![]) });
    let (result, stop_required) = finish(&c);
    assert!(stop_required, "the guard must fire on a protocol failure");
    match result {
        Err(ExecutionError::InvalidResponse(m)) => assert_eq!(m, "No allocations"),
        _ => panic!("expected the protocol error"),
    }
}

#[test]
fn log_read_failure_stops_job() {
    let mut c = controller(20_000, 1_000);
    c.step(Event::SubmitDone { result: Ok(()) });
    c.step(Event::StatusDone {
        result: Ok(Some("dead".to_string())),
    });
    c.step(Event::AllocsDone {
        result: Ok(vec![completed_allocation("alloc-1", "execute-rust", 0)]),
    });
    c.step(Event::StdoutDone {
        result: Err("file not found".to_string()),
    });
    let (result, stop_required) = finish(&c);
    assert!(stop_required);
    match result {
        Err(ExecutionError::NomadError(m)) => assert_eq!(m, "file not found"),
        _ => panic!("expected the upstream error"),
    }
}

#[test]
fn stderr_read_failure_stops_job() {
    let mut c = controller(20_000, 1_000);
    c.step(Event::SubmitDone { result: Ok(()) });
    c.step(Event::StatusDone {
        result: Ok(Some("dead".to_string())),
    });
    c.step(Event::AllocsDone {
        result: Ok(vec![completed_allocation("alloc-1", "execute-rust", 0)]),
    });
    c.step(Event::StdoutDone {
        result: Ok("partial".to_string()),
    });
    c.step(Event::StderrDone {
        result: Err("file not found".to_string()),
    });
    let (result, stop_required) = finish(&c);
    assert!(stop_required);
    assert!(matches!(result, Err(ExecutionError::NomadError(_))));
}

#[test]
fn job_not_yet_materialized_keeps_polling() {
    let mut c = controller(20_000, 1_000);
    c.step(Event::SubmitDone { result: Ok(()) });
    c.step(Event::StatusDone { result: Ok(None) });
    assert!(matches!(c.phase, Phase::Polling));
}

#[test]
fn dead_on_last_tick_still_succeeds() {
    // The terminal state wins over the budget when both are observed on
    // the same read.
    let mut c = controller(1_000, 1_000);
    c.step(Event::SubmitDone { result: Ok(()) });
    c.step(Event::StatusDone {
        result: Ok(Some("dead".to_string())),
    });
    assert!(matches!(c.phase, Phase::Listing));
}

#[test]
fn timeout_response_mapping() {
    let mut c = controller(1_000, 1_000);
    c.step(Event::SubmitDone { result: Ok(()) });
    c.step(Event::StatusDone {
        result: Ok(Some("running".to_string())),
    });
    let (result, _) = finish(&c);
    let HttpReply { status_code, body } = nomad_exec::response::map_outcome(result);
    assert_eq!(status_code, 500);
    match body {
        ReplyBody::Error { message } => assert_eq!(message, "Job timed out"),
        _ => panic!("expected an error body"),
    }
}
