use nomad_exec::error::{ExecutionError, error_message};
use nomad_exec::job::JobOutput;
use nomad_exec::response::{ReplyBody, map_outcome};

#[test]
fn success_maps_to_200_with_output() {
    let outcome = Ok(JobOutput { stdout: "hi\n".to_string(), stderr: "".to_string() });
    let reply = map_outcome(&outcome);
    assert_eq!(reply.status_code, 200);
    match reply.body {
        ReplyBody::Success { stdout, stderr } => {
            assert_eq!(stdout, "hi\n");
            assert_eq!(stderr, "");
        }
        _ => panic!("expected a success body"),
    }
}

#[test]
fn timeout_maps_to_500() {
    let outcome = Err(ExecutionError::TimeoutError);
    let reply = map_outcome(&outcome);
    assert_eq!(reply.status_code, 500);
    match reply.body {
        ReplyBody::Error { message } => assert_eq!(message, "Job timed out"),
        _ => panic!("expected an error body"),
    }
}

#[test]
fn upstream_failure_maps_to_500_with_detail() {
    let outcome = Err(ExecutionError::NomadError("connection refused".to_string()));
    let reply = map_outcome(&outcome);
    assert_eq!(reply.status_code, 500);
    match reply.body {
        ReplyBody::Error { message } => assert_eq!(message, "connection refused"),
        _ => panic!("expected an error body"),
    }
}

#[test]
fn protocol_failure_maps_to_500_with_prefix() {
    let outcome = Err(ExecutionError::InvalidResponse("No allocations".to_string()));
    let reply = map_outcome(&outcome);
    assert_eq!(reply.status_code, 500);
    match reply.body {
        ReplyBody::Error { message } => assert_eq!(message, "Invalid response: No allocations"),
        _ => panic!("expected an error body"),
    }
}

#[test]
fn error_messages_per_variant() {
    assert_eq!(error_message(&ExecutionError::TimeoutError), "Job timed out");
    assert_eq!(error_message(&ExecutionError::NomadError("x".to_string())), "x");
    assert_eq!(
        error_message(&ExecutionError::InvalidResponse("x".to_string())),
        "Invalid response: x"
    );
}
