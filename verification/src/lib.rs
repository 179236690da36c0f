//! Verified core of a one-shot code-execution service backed by a batch
//! scheduler: the job-specification builder, the execution lifecycle
//! controller, the allocation-result checks and the response mapping.
//! The surrounding process performs the scheduler I/O and feeds every
//! result back into the controller as an event.

pub mod allocation;
pub mod error;
pub mod job;
pub mod jobspec;
pub mod lifecycle;
pub mod response;
