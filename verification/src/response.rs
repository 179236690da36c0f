use vstd::prelude::*;
use crate::error::{ExecutionError, error_message, spec_error_message};
use crate::job::JobOutput;

verus! {

/// The body of the HTTP reply, before it is serialized at the edge.
pub enum ReplyBody {
    Success { stdout: String, stderr: String },
    Error { message: String },
}

/// An HTTP reply: the status code and the body to serialize.
pub struct HttpReply {
    pub status_code: u16,
    pub body: ReplyBody,
}

/// Map the outcome of one execute run onto the HTTP surface: success
/// becomes 200 carrying the captured output verbatim, and every failure
/// becomes 500 carrying the error's message.
pub fn map_outcome(outcome: &Result<JobOutput, ExecutionError>) -> (reply: HttpReply)
    ensures
        outcome matches Ok(out) ==> {
            &&& reply.status_code == 200
            &&& reply.body matches ReplyBody::Success { stdout, stderr }
            &&& stdout@ == out.stdout@
            &&& stderr@ == out.stderr@
        },
        outcome matches Err(e) ==> {
            &&& reply.status_code == 500
            &&& reply.body matches ReplyBody::Error { message }
            &&& message@ == spec_error_message(*e)
        },
{
    match outcome {
        Ok(out) => HttpReply {
            status_code: 200,
            body: ReplyBody::Success { stdout: out.stdout.clone(), stderr: out.stderr.clone() },
        },
        Err(e) => HttpReply {
            status_code: 500,
            body: ReplyBody::Error { message: error_message(e) },
        },
    }
}

} // verus!
