use vstd::prelude::*;
use vstd::string::StringExecFns;
use crate::allocation::{Allocation, AllocVerdict, alloc_verdict, pick_allocation, verdict_error};
use crate::error::ExecutionError;
use crate::job::JobOutput;

verus! {

/// The default wall-clock budget for one whole execute run.
pub const DEFAULT_DEADLINE_MS: u64 = 20000;

/// The default pause before each status read.
pub const DEFAULT_POLL_INTERVAL_MS: u64 = 1000;

/// Where the stdout of the task called `name` lands: the first rotation
/// of its stdout log inside the allocation's log directory.
pub open spec fn spec_stdout_log_path(name: Seq<char>) -> Seq<char> {
    "alloc/logs/"@ + name + ".stdout.0"@
}

/// Where the stderr of the task called `name` lands.
pub open spec fn spec_stderr_log_path(name: Seq<char>) -> Seq<char> {
    "alloc/logs/"@ + name + ".stderr.0"@
}

pub fn stdout_log_path(name: &str) -> (r: String)
    ensures
        r@ == spec_stdout_log_path(name@),
{
    String::from_str("alloc/logs/").concat(name).concat(".stdout.0")
}

pub fn stderr_log_path(name: &str) -> (r: String)
    ensures
        r@ == spec_stderr_log_path(name@),
{
    String::from_str("alloc/logs/").concat(name).concat(".stderr.0")
}

/// Whether a status read reports the terminal job state. Every other
/// status (or a job record not yet materialized) means: keep polling.
pub open spec fn is_dead_status(status: Option<String>) -> bool {
    status matches Some(s) && s@ == "dead"@
}

/// What the controller is waiting for. Each non-final phase names the
/// one scheduler operation the surrounding process must perform next;
/// the matching event feeds its result back into `step`.
pub enum Phase {
    /// Submit the job specification; answer with `SubmitDone`.
    Submitting,
    /// Sleep one poll interval, then read the job's status; answer with
    /// `StatusDone`.
    Polling,
    /// List the job's allocations; answer with `AllocsDone`.
    Listing,
    /// Read the file at `path` of allocation `alloc_id`; answer with
    /// `StdoutDone`.
    ReadingStdout { alloc_id: String, path: String },
    /// Read the file at `path` of allocation `alloc_id`; answer with
    /// `StderrDone`.
    ReadingStderr { alloc_id: String, path: String, stdout: String },
    /// The run is decided. If `stop_required`, the job must still be
    /// stopped (best-effort; the outcome no longer depends on it).
    Finished { result: Result<JobOutput, ExecutionError>, stop_required: bool },
}

/// The result of the one scheduler operation the current phase asked
/// for. An `Err` carries the upstream message.
pub enum Event {
    SubmitDone { result: Result<(), String> },
    StatusDone { result: Result<Option<String>, String> },
    AllocsDone { result: Result<Vec<Allocation>, String> },
    StdoutDone { result: Result<String, String> },
    StderrDone { result: Result<String, String> },
}

/// The lifecycle of one execute request: submit, poll to the terminal
/// state under a wall-clock budget, then fetch the logs of the one
/// allocation. The controller makes every decision; the surrounding
/// process performs the scheduler I/O that the current phase names and
/// feeds the result back as an event. Time is modelled by `elapsed_ms`,
/// which grows by one poll interval per status read.
pub struct Controller {
    pub job_id: String,
    pub job_name: String,
    pub deadline_ms: u64,
    pub interval_ms: u64,
    /// Poll time spent so far: one interval per status read.
    pub elapsed_ms: u64,
    /// Whether a submit was observed to succeed.
    pub submitted: bool,
    /// How often each scheduler operation has been asked for.
    pub submit_calls: u64,
    pub status_reads: u64,
    pub list_calls: u64,
    pub stdout_reads: u64,
    pub stderr_reads: u64,
    pub phase: Phase,
}

impl Controller {
    /// Everything that holds of a controller in any reachable state.
    pub open spec fn inv(self) -> bool {
        &&& 1 <= self.interval_ms
        &&& self.deadline_ms + self.interval_ms <= u64::MAX
        &&& self.elapsed_ms == self.status_reads * self.interval_ms
        &&& self.elapsed_ms <= self.deadline_ms + self.interval_ms
        &&& self.submit_calls <= 1
        &&& self.list_calls <= 1
        &&& self.stdout_reads <= 1
        &&& self.stderr_reads <= 1
        &&& (self.submitted ==> self.submit_calls == 1)
        &&& match self.phase {
            Phase::Submitting => {
                &&& !self.submitted
                &&& self.submit_calls == 0
                &&& self.status_reads == 0
                &&& self.list_calls == 0
                &&& self.stdout_reads == 0
                &&& self.stderr_reads == 0
            },
            Phase::Polling => {
                &&& self.submitted
                &&& self.submit_calls == 1
                &&& self.list_calls == 0
                &&& self.stdout_reads == 0
                &&& self.stderr_reads == 0
                &&& (self.elapsed_ms == 0 || self.elapsed_ms < self.deadline_ms)
            },
            Phase::Listing => {
                &&& self.submitted
                &&& self.submit_calls == 1
                &&& self.list_calls == 0
                &&& self.stdout_reads == 0
                &&& self.stderr_reads == 0
            },
            Phase::ReadingStdout { alloc_id, path } => {
                &&& self.submitted
                &&& self.list_calls == 1
                &&& self.stdout_reads == 0
                &&& self.stderr_reads == 0
                &&& path@ == spec_stdout_log_path(self.job_name@)
            },
            Phase::ReadingStderr { alloc_id, path, stdout } => {
                &&& self.submitted
                &&& self.list_calls == 1
                &&& self.stdout_reads == 1
                &&& self.stderr_reads == 0
                &&& path@ == spec_stderr_log_path(self.job_name@)
            },
            Phase::Finished { result, stop_required } => {
                &&& self.submit_calls == 1
                &&& (result is Ok ==> self.submitted && !stop_required && self.list_calls == 1
                    && self.stdout_reads == 1 && self.stderr_reads == 1)
                &&& (result is Err && self.submitted ==> stop_required)
                &&& (!self.submitted ==> !stop_required)
                &&& (result matches Err(e) && e is TimeoutError ==> self.elapsed_ms
                    >= self.deadline_ms)
            },
        }
    }

    /// Whether `event` answers what the current phase asked for.
    pub open spec fn event_enabled(self, event: Event) -> bool {
        match event {
            Event::SubmitDone { .. } => self.phase is Submitting,
            Event::StatusDone { .. } => self.phase is Polling,
            Event::AllocsDone { .. } => self.phase is Listing,
            Event::StdoutDone { .. } => self.phase is ReadingStdout,
            Event::StderrDone { .. } => self.phase is ReadingStderr,
        }
    }

    /// A controller about to submit the job `job_id` (task name
    /// `job_name`), with the whole run budgeted to `deadline_ms` and one
    /// status read per `interval_ms` of poll time.
    pub fn new(job_id: String, job_name: String, deadline_ms: u64, interval_ms: u64) -> (c:
        Controller)
        requires
            1 <= interval_ms,
            deadline_ms + interval_ms <= u64::MAX,
        ensures
            c.inv(),
            c.phase is Submitting,
            c.job_id == job_id,
            c.job_name == job_name,
            c.deadline_ms == deadline_ms,
            c.interval_ms == interval_ms,
            c.elapsed_ms == 0,
            !c.submitted,
            c.submit_calls == 0,
            c.status_reads == 0,
            c.list_calls == 0,
            c.stdout_reads == 0,
            c.stderr_reads == 0,
    {
        Controller {
            job_id,
            job_name,
            deadline_ms,
            interval_ms,
            elapsed_ms: 0,
            submitted: false,
            submit_calls: 0,
            status_reads: 0,
            list_calls: 0,
            stdout_reads: 0,
            stderr_reads: 0,
            phase: Phase::Submitting,
        }
    }

    /// Advance the lifecycle by the result of the operation the current
    /// phase asked for. The postcondition pins every transition down:
    /// a failed submit finishes without a stop (nothing was created); a
    /// failure after the submit finishes with a stop mandated; a dead
    /// status moves on to the allocations; a status read that exhausts
    /// the budget times the run out; the log paths handed out are
    /// exactly the two derived ones; and the success output is exactly
    /// what the two reads returned.
    pub fn step(&mut self, event: Event)
        requires
            old(self).inv(),
            old(self).event_enabled(event),
        ensures
            final(self).inv(),
            final(self).job_id == old(self).job_id,
            final(self).job_name == old(self).job_name,
            final(self).deadline_ms == old(self).deadline_ms,
            final(self).interval_ms == old(self).interval_ms,
            final(self).submit_calls == old(self).submit_calls + (
            if event is SubmitDone {
                1int
            } else {
                0int
            }),
            final(self).status_reads == old(self).status_reads + (
            if event is StatusDone {
                1int
            } else {
                0int
            }),
            final(self).list_calls == old(self).list_calls + (
            if event is AllocsDone {
                1int
            } else {
                0int
            }),
            final(self).stdout_reads == old(self).stdout_reads + (
            if event is StdoutDone {
                1int
            } else {
                0int
            }),
            final(self).stderr_reads == old(self).stderr_reads + (
            if event is StderrDone {
                1int
            } else {
                0int
            }),
            final(self).elapsed_ms == old(self).elapsed_ms + (
            if event is StatusDone {
                old(self).interval_ms as int
            } else {
                0int
            }),
            event matches Event::SubmitDone { result } ==> result is Ok ==> final(self).phase is Polling
                && final(self).submitted,
            event matches Event::SubmitDone { result } ==> result matches Err(d) ==> {
                &&& final(self).phase matches Phase::Finished { result: r, stop_required }
                &&& !stop_required
                &&& r matches Err(e)
                &&& e matches ExecutionError::NomadError(m)
                &&& m@ == d@
            },
            event matches Event::StatusDone { result } ==> result matches Err(d) ==> {
                &&& final(self).phase matches Phase::Finished { result: r, stop_required }
                &&& stop_required
                &&& r matches Err(e)
                &&& e matches ExecutionError::NomadError(m)
                &&& m@ == d@
            },
            event matches Event::StatusDone { result } ==> result matches Ok(st)
                ==> is_dead_status(st) ==> final(self).phase is Listing,
            event matches Event::StatusDone { result } ==> result matches Ok(st)
                ==> !is_dead_status(st) && old(self).elapsed_ms + old(self).interval_ms >= old(self).deadline_ms
                ==> {
                &&& final(self).phase matches Phase::Finished { result: r, stop_required }
                &&& stop_required
                &&& r matches Err(e)
                &&& e is TimeoutError
            },
            event matches Event::StatusDone { result } ==> result matches Ok(st)
                ==> !is_dead_status(st) && old(self).elapsed_ms + old(self).interval_ms < old(self).deadline_ms
                ==> final(self).phase is Polling,
            event matches Event::AllocsDone { result } ==> result matches Err(d) ==> {
                &&& final(self).phase matches Phase::Finished { result: r, stop_required }
                &&& stop_required
                &&& r matches Err(e)
                &&& e matches ExecutionError::NomadError(m)
                &&& m@ == d@
            },
            event matches Event::AllocsDone { result } ==> result matches Ok(allocs)
                ==> alloc_verdict(allocs@, old(self).job_name@) matches AllocVerdict::Picked { alloc_id }
                ==> {
                &&& final(self).phase matches Phase::ReadingStdout { alloc_id: aid, path }
                &&& aid@ == alloc_id
                &&& path@ == spec_stdout_log_path(old(self).job_name@)
            },
            event matches Event::AllocsDone { result } ==> result matches Ok(allocs)
                ==> !(alloc_verdict(allocs@, old(self).job_name@) is Picked)
                ==> {
                &&& final(self).phase matches Phase::Finished { result: r, stop_required }
                &&& stop_required
                &&& r matches Err(e)
                &&& e matches ExecutionError::InvalidResponse(m)
                &&& m@ == verdict_error(
                    alloc_verdict(allocs@, old(self).job_name@),
                    old(self).job_id@,
                )
            },
            event matches Event::StdoutDone { result } ==> result matches Err(d) ==> {
                &&& final(self).phase matches Phase::Finished { result: r, stop_required }
                &&& stop_required
                &&& r matches Err(e)
                &&& e matches ExecutionError::NomadError(m)
                &&& m@ == d@
            },
            event matches Event::StdoutDone { result } ==> result matches Ok(s) ==> {
                &&& final(self).phase matches Phase::ReadingStderr { alloc_id, path, stdout }
                &&& old(self).phase matches Phase::ReadingStdout { alloc_id: a0, .. }
                &&& alloc_id@ == a0@
                &&& path@ == spec_stderr_log_path(old(self).job_name@)
                &&& stdout@ == s@
            },
            event matches Event::StderrDone { result } ==> result matches Err(d) ==> {
                &&& final(self).phase matches Phase::Finished { result: r, stop_required }
                &&& stop_required
                &&& r matches Err(e)
                &&& e matches ExecutionError::NomadError(m)
                &&& m@ == d@
            },
            event matches Event::StderrDone { result } ==> result matches Ok(s) ==> {
                &&& final(self).phase matches Phase::Finished { result: r, stop_required }
                &&& !stop_required
                &&& r matches Ok(out)
                &&& old(self).phase matches Phase::ReadingStderr { stdout, .. }
                &&& out.stdout@ == stdout@
                &&& out.stderr@ == s@
            },
    {
        let mut ph = Phase::Submitting;
        core::mem::swap(&mut ph, &mut self.phase);
        match event {
            Event::SubmitDone { result } => {
                self.submit_calls = self.submit_calls + 1;
                match result {
                    Ok(_) => {
                        self.submitted = true;
                        self.phase = Phase::Polling;
                    },
                    Err(d) => {
                        self.phase = Phase::Finished {
                            result: Err(ExecutionError::NomadError(d)),
                            stop_required: false,
                        };
                    },
                }
            },
            Event::StatusDone { result } => {
                proof {
                    lemma_reads_below_max(
                        self.status_reads,
                        self.interval_ms,
                        self.elapsed_ms,
                        self.deadline_ms,
                    );
                }
                self.status_reads = self.status_reads + 1;
                self.elapsed_ms = self.elapsed_ms + self.interval_ms;
                match result {
                    Err(d) => {
                        self.phase = Phase::Finished {
                            result: Err(ExecutionError::NomadError(d)),
                            stop_required: true,
                        };
                    },
                    Ok(status) => {
                        let dead_word: String = "dead".to_owned();
                        let dead = match &status {
                            Some(s) => *s == dead_word,
                            None => false,
                        };
                        if dead {
                            self.phase = Phase::Listing;
                        } else if self.elapsed_ms >= self.deadline_ms {
                            self.phase = Phase::Finished {
                                result: Err(ExecutionError::TimeoutError),
                                stop_required: true,
                            };
                        } else {
                            self.phase = Phase::Polling;
                        }
                    },
                }
            },
            Event::AllocsDone { result } => {
                self.list_calls = self.list_calls + 1;
                match result {
                    Err(d) => {
                        self.phase = Phase::Finished {
                            result: Err(ExecutionError::NomadError(d)),
                            stop_required: true,
                        };
                    },
                    Ok(allocs) => {
                        match pick_allocation(&allocs, &self.job_id, &self.job_name) {
                            Ok(alloc_id) => {
                                let path = stdout_log_path(self.job_name.as_str());
                                self.phase = Phase::ReadingStdout { alloc_id, path };
                            },
                            Err(e) => {
                                self.phase = Phase::Finished {
                                    result: Err(e),
                                    stop_required: true,
                                };
                            },
                        }
                    },
                }
            },
            Event::StdoutDone { result } => {
                self.stdout_reads = self.stdout_reads + 1;
                match ph {
                    Phase::ReadingStdout { alloc_id, path: _ } => {
                        match result {
                            Ok(s) => {
                                let path = stderr_log_path(self.job_name.as_str());
                                self.phase = Phase::ReadingStderr { alloc_id, path, stdout: s };
                            },
                            Err(d) => {
                                self.phase = Phase::Finished {
                                    result: Err(ExecutionError::NomadError(d)),
                                    stop_required: true,
                                };
                            },
                        }
                    },
                    _ => {
                        proof {
                            assert(false);
                        }
                        self.phase = Phase::Submitting;
                    },
                }
            },
            Event::StderrDone { result } => {
                self.stderr_reads = self.stderr_reads + 1;
                match ph {
                    Phase::ReadingStderr { alloc_id: _, path: _, stdout } => {
                        match result {
                            Ok(s) => {
                                self.phase = Phase::Finished {
                                    result: Ok(JobOutput { stdout, stderr: s }),
                                    stop_required: false,
                                };
                            },
                            Err(d) => {
                                self.phase = Phase::Finished {
                                    result: Err(ExecutionError::NomadError(d)),
                                    stop_required: true,
                                };
                            },
                        }
                    },
                    _ => {
                        proof {
                            assert(false);
                        }
                        self.phase = Phase::Submitting;
                    },
                }
            },
        }
    }
}

/// A controller that has spent `elapsed == reads * interval` of a budget
/// of `deadline`, with `elapsed` either zero or still under `deadline`,
/// has made fewer than `u64::MAX` reads.
proof fn lemma_reads_below_max(reads: u64, interval: u64, elapsed: u64, deadline: u64)
    requires
        1 <= interval,
        elapsed == reads * interval,
        elapsed == 0 || elapsed < deadline,
        deadline + interval <= u64::MAX,
    ensures
        reads < u64::MAX,
        (reads + 1) * interval == elapsed + interval,
{
    assert(reads <= reads * interval) by (nonlinear_arith)
        requires
            1 <= interval,
            0 <= reads,
    ;
    assert((reads + 1) * interval == reads * interval + interval) by (nonlinear_arith);
}

/// Cleanup law: a run that observed a successful submit and did not end
/// in success always mandates stopping the job.
pub proof fn lemma_cleanup_on_failure(c: Controller)
    requires
        c.inv(),
    ensures
        c.phase matches Phase::Finished { result, stop_required } ==> c.submitted && result is Err
            ==> stop_required,
        c.phase matches Phase::Finished { result, stop_required } ==> !c.submitted
            ==> !stop_required,
{
}

/// A successful run never mandates a stop: the job is already dead.
pub proof fn lemma_success_no_stop(c: Controller)
    requires
        c.inv(),
    ensures
        c.phase matches Phase::Finished { result, stop_required } ==> result is Ok
            ==> !stop_required,
{
}

/// No operation is retried: each scheduler operation other than the
/// status poll is asked for at most once per run, and (by `step`'s
/// precondition) nothing more is asked once the run is finished.
pub proof fn lemma_no_retries(c: Controller)
    requires
        c.inv(),
    ensures
        c.submit_calls <= 1,
        c.list_calls <= 1,
        c.stdout_reads <= 1,
        c.stderr_reads <= 1,
{
}

/// A finished run accepts no further event, so no operation — retried
/// or otherwise — is ever asked for after the outcome is decided.
pub proof fn lemma_finished_is_terminal(c: Controller, event: Event)
    requires
        c.phase is Finished,
    ensures
        !c.event_enabled(event),
{
}

/// Deadline bound: the poll time spent never exceeds the budget by more
/// than one interval, and a timeout is only declared once the budget is
/// actually spent.
pub proof fn lemma_deadline_bound(c: Controller)
    requires
        c.inv(),
    ensures
        c.elapsed_ms <= c.deadline_ms + c.interval_ms,
        c.status_reads * c.interval_ms <= c.deadline_ms + c.interval_ms,
        c.phase matches Phase::Finished { result, .. } ==> result matches Err(e)
            ==> e is TimeoutError ==> c.elapsed_ms >= c.deadline_ms,
{
}

/// Log path law: the only paths the controller ever asks to have read
/// are the two derived log paths of its own job name.
pub proof fn lemma_log_paths(c: Controller)
    requires
        c.inv(),
    ensures
        c.phase matches Phase::ReadingStdout { path, .. } ==> path@ == spec_stdout_log_path(
            c.job_name@,
        ),
        c.phase matches Phase::ReadingStderr { path, .. } ==> path@ == spec_stderr_log_path(
            c.job_name@,
        ),
{
}

} // verus!
