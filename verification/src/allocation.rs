use vstd::prelude::*;
use vstd::string::StringExecFns;
use crate::error::ExecutionError;

verus! {

/// One event in the life of a task, as the scheduler reports it.
pub struct TaskEvent {
    pub event_type: Option<String>,
    pub exit_code: Option<i64>,
    pub message: Option<String>,
}

/// The scheduler's record of one task inside an allocation.
pub struct TaskState {
    pub events: Option<Vec<TaskEvent>>,
}

/// The scheduler's record of a task-group instance placed on a node.
/// `task_states` maps each task name to its state; the scheduler keys
/// it by name, so the names are unique.
pub struct Allocation {
    pub id: Option<String>,
    pub task_states: Option<Vec<(String, TaskState)>>,
}

/// The state recorded for the task called `name`: the first entry under
/// that name (with unique names, the only one).
pub open spec fn task_state_for(pairs: Seq<(String, TaskState)>, name: Seq<char>) -> Option<
    TaskState,
>
    decreases pairs.len(),
{
    if pairs.len() == 0 {
        None
    } else if pairs[0].0@ == name {
        Some(pairs[0].1)
    } else {
        task_state_for(pairs.skip(1), name)
    }
}

/// Whether an event marks the termination of the task.
pub open spec fn is_terminated(ev: TaskEvent) -> bool {
    ev.event_type matches Some(t) && t@ == "Terminated"@
}

/// The first termination event in the task's event list.
pub open spec fn find_terminated(events: Seq<TaskEvent>) -> Option<TaskEvent>
    decreases events.len(),
{
    if events.len() == 0 {
        None
    } else if is_terminated(events[0]) {
        Some(events[0])
    } else {
        find_terminated(events.skip(1))
    }
}

/// Whether the termination event reports an exit the batch task itself
/// produced (the program ran and exited with 0 or 1), as opposed to the
/// scheduler killing or failing the task.
pub open spec fn is_normal_exit(ev: TaskEvent) -> bool {
    ev.exit_code == Some(0i64) || ev.exit_code == Some(1i64)
}

/// What examining a job's allocations yields: either the identifier of
/// the completed allocation whose logs may be read, or the first
/// structural defect found, in the order the checks are made.
pub enum AllocVerdict {
    NoAllocations,
    MissingTaskStates,
    MissingTaskState,
    MissingEvents,
    MissingTermination,
    AbnormalExit { message: Option<Seq<char>> },
    MissingAllocId,
    Picked { alloc_id: Seq<char> },
}

/// The verdict on `allocs` for the task called `job_name`: the first
/// allocation is the one examined, and every check of `pick_allocation`
/// is applied in order.
pub open spec fn alloc_verdict(allocs: Seq<Allocation>, job_name: Seq<char>) -> AllocVerdict {
    if allocs.len() == 0 {
        AllocVerdict::NoAllocations
    } else {
        let a = allocs[0];
        match a.task_states {
            None => AllocVerdict::MissingTaskStates,
            Some(pairs) => match task_state_for(pairs@, job_name) {
                None => AllocVerdict::MissingTaskState,
                Some(ts) => match ts.events {
                    None => AllocVerdict::MissingEvents,
                    Some(evs) => match find_terminated(evs@) {
                        None => AllocVerdict::MissingTermination,
                        Some(ev) => if !is_normal_exit(ev) {
                            AllocVerdict::AbnormalExit {
                                message: match ev.message {
                                    Some(m) => Some(m@),
                                    None => None,
                                },
                            }
                        } else {
                            match a.id {
                                None => AllocVerdict::MissingAllocId,
                                Some(id) => AllocVerdict::Picked { alloc_id: id@ },
                            }
                        },
                    },
                },
            },
        }
    }
}

/// The message carried by the error for an abnormal termination event.
pub open spec fn abnormal_exit_message(message: Option<Seq<char>>) -> Seq<char> {
    match message {
        Some(m) => m,
        None => "Job failed"@,
    }
}

/// The message of the protocol error raised for a defective verdict,
/// with `job_id` named when the task state is missing.
pub open spec fn verdict_error(v: AllocVerdict, job_id: Seq<char>) -> Seq<char>
    recommends
        !(v is Picked),
{
    match v {
        AllocVerdict::NoAllocations => "No allocations"@,
        AllocVerdict::MissingTaskStates => "Missing task states"@,
        AllocVerdict::MissingTaskState => "Missing task state for "@ + job_id,
        AllocVerdict::MissingEvents => "Missing events"@,
        AllocVerdict::MissingTermination => "Missing termination event"@,
        AllocVerdict::AbnormalExit { message } => abnormal_exit_message(message),
        AllocVerdict::MissingAllocId => "Missing allocation ID"@,
        AllocVerdict::Picked { .. } => Seq::empty(),
    }
}

/// Whether `r` is the protocol error with message `m`.
pub open spec fn is_invalid_response(r: Result<String, ExecutionError>, m: Seq<char>) -> bool {
    r matches Err(e) && e matches ExecutionError::InvalidResponse(s) && s@ == m
}

fn lookup_task_state<'a>(pairs: &'a Vec<(String, TaskState)>, name: &String) -> (r: Option<
    &'a TaskState,
>)
    ensures
        match task_state_for(pairs@, name@) {
            Some(ts) => r matches Some(rts) && *rts == ts,
            None => r is None,
        },
{
    let mut i: usize = 0;
    proof {
        assert(pairs@.skip(0) =~= pairs@);
    }
    while i < pairs.len()
        invariant
            i <= pairs@.len(),
            task_state_for(pairs@, name@) == task_state_for(pairs@.skip(i as int), name@),
        decreases pairs@.len() - i,
    {
        proof {
            assert(pairs@.skip(i as int)[0] == pairs@[i as int]);
        }
        if pairs[i].0 == *name {
            return Some(&pairs[i].1);
        }
        proof {
            assert(pairs@.skip(i as int).skip(1) =~= pairs@.skip(i as int + 1));
        }
        i = i + 1;
    }
    None
}

fn find_terminated_event<'a>(events: &'a Vec<TaskEvent>) -> (r: Option<&'a TaskEvent>)
    ensures
        match find_terminated(events@) {
            Some(ev) => r matches Some(rev) && *rev == ev,
            None => r is None,
        },
{
    let terminated: String = "Terminated".to_owned();
    let mut i: usize = 0;
    proof {
        assert(events@.skip(0) =~= events@);
    }
    while i < events.len()
        invariant
            i <= events@.len(),
            terminated@ == "Terminated"@,
            find_terminated(events@) == find_terminated(events@.skip(i as int)),
        decreases events@.len() - i,
    {
        proof {
            assert(events@.skip(i as int)[0] == events@[i as int]);
        }
        let hit = match &events[i].event_type {
            Some(t) => *t == terminated,
            None => false,
        };
        if hit {
            return Some(&events[i]);
        }
        proof {
            assert(events@.skip(i as int).skip(1) =~= events@.skip(i as int + 1));
        }
        i = i + 1;
    }
    None
}

/// Examine the allocations listed for a finished job and decide which
/// allocation's logs to read: the first one listed, provided it carries
/// a termination event of the task called `job_name` with a normal exit
/// and has an identifier. Every structural defect is reported as the
/// protocol error that `alloc_verdict` assigns to it, with `job_id`
/// named in the message for a missing task state.
pub fn pick_allocation(allocs: &Vec<Allocation>, job_id: &String, job_name: &String) -> (r: Result<
    String,
    ExecutionError,
>)
    ensures
        ({
            let v = alloc_verdict(allocs@, job_name@);
            &&& (v matches AllocVerdict::Picked { alloc_id } ==> r matches Ok(id) && id@
                == alloc_id)
            &&& (!(v is Picked) ==> is_invalid_response(r, verdict_error(v, job_id@)))
        }),
{
    if allocs.len() == 0 {
        return Err(ExecutionError::InvalidResponse("No allocations".to_owned()));
    }
    let a = &allocs[0];
    let pairs = match &a.task_states {
        Some(p) => p,
        None => {
            return Err(ExecutionError::InvalidResponse("Missing task states".to_owned()));
        },
    };
    let ts = match lookup_task_state(pairs, job_name) {
        Some(t) => t,
        None => {
            return Err(
                ExecutionError::InvalidResponse(
                    String::from_str("Missing task state for ").concat(job_id.as_str()),
                ),
            );
        },
    };
    let evs = match &ts.events {
        Some(e) => e,
        None => {
            return Err(ExecutionError::InvalidResponse("Missing events".to_owned()));
        },
    };
    let ev = match find_terminated_event(evs) {
        Some(e) => e,
        None => {
            return Err(ExecutionError::InvalidResponse("Missing termination event".to_owned()));
        },
    };
    let normal = match ev.exit_code {
        Some(c) => c == 0 || c == 1,
        None => false,
    };
    if !normal {
        let m = match &ev.message {
            Some(m) => m.clone(),
            None => "Job failed".to_owned(),
        };
        return Err(ExecutionError::InvalidResponse(m));
    }
    match &a.id {
        Some(id) => Ok(id.clone()),
        None => Err(ExecutionError::InvalidResponse("Missing allocation ID".to_owned())),
    }
}

} // verus!
