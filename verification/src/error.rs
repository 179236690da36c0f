use vstd::prelude::*;
use vstd::string::StringExecFns;

verus! {

/// Everything that can go wrong while driving one job through the
/// scheduler, apart from the request-level deadline handling.
#[derive(Debug)]
pub enum ExecutionError {
    /// The scheduler's API returned a transport or non-success response;
    /// the payload is the upstream message.
    NomadError(String),
    /// The scheduler answered, but the answer was structurally unexpected.
    InvalidResponse(String),
    /// The wall-clock deadline elapsed before the job reached its
    /// terminal state.
    TimeoutError,
}

/// The human-readable message carried into an error response body.
pub open spec fn spec_error_message(e: ExecutionError) -> Seq<char> {
    match e {
        ExecutionError::NomadError(d) => d@,
        ExecutionError::InvalidResponse(d) => "Invalid response: "@ + d@,
        ExecutionError::TimeoutError => "Job timed out"@,
    }
}

pub fn error_message(e: &ExecutionError) -> (m: String)
    ensures
        m@ == spec_error_message(*e),
{
    match e {
        ExecutionError::NomadError(d) => d.clone(),
        ExecutionError::InvalidResponse(d) => String::from_str("Invalid response: ").concat(d.as_str()),
        ExecutionError::TimeoutError => "Job timed out".to_owned(),
    }
}

} // verus!
