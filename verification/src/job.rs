use vstd::prelude::*;
use vstd::string::StringExecFns;
use crate::jobspec::{
    JobSpec, MountConfig, ReschedulePolicy, RestartPolicy, TaskConfig, TaskGroupSpec, TaskSpec,
    TaskTemplate, job_spec_wf,
};

verus! {

/// What a finished job hands back: the captured output streams.
pub struct JobOutput {
    pub stdout: String,
    pub stderr: String,
}

/// The stable per-language job name. It doubles as the task name and as
/// the basename of the log files.
pub open spec fn spec_job_name() -> Seq<char> {
    "execute-rust"@
}

/// The per-request job identifier derived from a fresh identifier.
pub open spec fn spec_job_id(uuid: Seq<char>) -> Seq<char> {
    "execute-rust-"@ + uuid
}

/// Distinct fresh identifiers derive distinct job identifiers, so two
/// requests never address each other's job.
pub proof fn lemma_job_id_injective(u1: Seq<char>, u2: Seq<char>)
    ensures
        u1 != u2 ==> spec_job_id(u1) != spec_job_id(u2),
{
    let p = "execute-rust-"@;
    if spec_job_id(u1) == spec_job_id(u2) {
        assert(p + u1 == p + u2);
        assert((p + u1).len() == (p + u2).len());
        assert(u1.len() == u2.len());
        assert forall|i: int| 0 <= i < u1.len() implies u1[i] == u2[i] by {
            assert((p + u1)[p.len() + i] == u1[i]);
            assert((p + u2)[p.len() + i] == u2[i]);
        }
        assert(u1 =~= u2);
    }
}

/// Relies on uuid::Uuid::new_v4 and the Display impl of uuid::Uuid: a
/// fresh random version-4 identifier, rendered in hyphenated form, which
/// is always 36 characters long. Nothing is assumed about which
/// identifier comes back: two calls may return anything of that length.
#[verifier::external_body]
fn fresh_uuid() -> (r: String)
    ensures
        r@.len() == 36,
{
    uuid::Uuid::new_v4().to_string()
}

/// One request to run a snippet of source code as a one-shot batch job.
pub struct RustJob {
    pub uuid: String,
    pub code: String,
}

impl RustJob {
    /// A fresh job for `code`: the code is kept verbatim and a new
    /// identifier is drawn for this request alone.
    pub fn new(code: &str) -> (j: RustJob)
        ensures
            j.code@ == code@,
            j.uuid@.len() == 36,
    {
        RustJob { uuid: fresh_uuid(), code: code.to_owned() }
    }

    pub fn job_id(&self) -> (r: String)
        ensures
            r@ == spec_job_id(self.uuid@),
    {
        String::from_str("execute-rust-").concat(self.uuid.as_str())
    }

    pub fn job_name(&self) -> (r: String)
        ensures
            r@ == spec_job_name(),
    {
        "execute-rust".to_owned()
    }

    /// Synthesize the scheduler-facing job specification for this
    /// request: `image` is the container image configured for the
    /// language at startup.
    pub fn create_job_request(&self, image: &str) -> (js: JobSpec)
        ensures
            job_spec_wf(js, spec_job_id(self.uuid@), spec_job_name(), self.code@, image@),
    {
        let mut mounts: Vec<MountConfig> = Vec::new();
        mounts.push(MountConfig {
            source: "local/main.rs".to_owned(),
            target: "/templates/rust/src/main.rs".to_owned(),
            mount_type: "bind".to_owned(),
        });
        let mut templates: Vec<TaskTemplate> = Vec::new();
        templates.push(TaskTemplate {
            embedded_tmpl: self.code.clone(),
            dest_path: "local/main.rs".to_owned(),
        });
        let mut tasks: Vec<TaskSpec> = Vec::new();
        tasks.push(TaskSpec {
            name: self.job_name(),
            driver: "docker".to_owned(),
            config: TaskConfig { image: image.to_owned(), mounts },
            templates,
        });
        let mut task_groups: Vec<TaskGroupSpec> = Vec::new();
        task_groups.push(TaskGroupSpec {
            name: self.job_name(),
            restart_policy: RestartPolicy { attempts: 0, mode: "fail".to_owned() },
            reschedule_policy: ReschedulePolicy { attempts: 0, unlimited: false },
            tasks,
        });
        JobSpec {
            id: self.job_id(),
            name: self.job_name(),
            job_type: "batch".to_owned(),
            task_groups,
        }
    }
}

} // verus!
