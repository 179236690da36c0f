use vstd::prelude::*;

verus! {

/// One bind-mount entry inside the container configuration of a task.
pub struct MountConfig {
    pub source: String,
    pub target: String,
    pub mount_type: String,
}

/// The container configuration of a task: the image to run and the
/// mounts wired into it.
pub struct TaskConfig {
    pub image: String,
    pub mounts: Vec<MountConfig>,
}

/// A file materialized inside the task directory before the task starts.
pub struct TaskTemplate {
    pub embedded_tmpl: String,
    pub dest_path: String,
}

/// How often the scheduler may restart a failed task in place.
pub struct RestartPolicy {
    pub attempts: u32,
    pub mode: String,
}

/// How often the scheduler may reschedule a failed allocation elsewhere.
pub struct ReschedulePolicy {
    pub attempts: u32,
    pub unlimited: bool,
}

/// One task of a task group.
pub struct TaskSpec {
    pub name: String,
    pub driver: String,
    pub config: TaskConfig,
    pub templates: Vec<TaskTemplate>,
}

/// One task group of a job.
pub struct TaskGroupSpec {
    pub name: String,
    pub restart_policy: RestartPolicy,
    pub reschedule_policy: ReschedulePolicy,
    pub tasks: Vec<TaskSpec>,
}

/// The scheduler-facing description of one job.
pub struct JobSpec {
    pub id: String,
    pub name: String,
    pub job_type: String,
    pub task_groups: Vec<TaskGroupSpec>,
}

/// What the builder guarantees of every specification it emits for the
/// job named `name` (with identifier `id`) that carries `code` and runs
/// on `image`: a batch job of exactly one task group with exactly one
/// docker task, which the scheduler may neither restart nor reschedule,
/// whose single template holds the code verbatim, and whose single bind
/// mount points the container's expected source path at that file.
pub open spec fn job_spec_wf(
    js: JobSpec,
    id: Seq<char>,
    name: Seq<char>,
    code: Seq<char>,
    image: Seq<char>,
) -> bool {
    &&& js.id@ == id
    &&& js.name@ == name
    &&& js.job_type@ == "batch"@
    &&& js.task_groups@.len() == 1
    &&& js.task_groups@[0].name@ == name
    &&& js.task_groups@[0].restart_policy.attempts == 0
    &&& js.task_groups@[0].restart_policy.mode@ == "fail"@
    &&& js.task_groups@[0].reschedule_policy.attempts == 0
    &&& !js.task_groups@[0].reschedule_policy.unlimited
    &&& js.task_groups@[0].tasks@.len() == 1
    &&& js.task_groups@[0].tasks@[0].name@ == name
    &&& js.task_groups@[0].tasks@[0].driver@ == "docker"@
    &&& js.task_groups@[0].tasks@[0].config.image@ == image
    &&& js.task_groups@[0].tasks@[0].config.mounts@.len() == 1
    &&& js.task_groups@[0].tasks@[0].config.mounts@[0].source@ == "local/main.rs"@
    &&& js.task_groups@[0].tasks@[0].config.mounts@[0].target@ == "/templates/rust/src/main.rs"@
    &&& js.task_groups@[0].tasks@[0].config.mounts@[0].mount_type@ == "bind"@
    &&& js.task_groups@[0].tasks@[0].templates@.len() == 1
    &&& js.task_groups@[0].tasks@[0].templates@[0].embedded_tmpl@ == code
    &&& js.task_groups@[0].tasks@[0].templates@[0].dest_path@ == "local/main.rs"@
}

} // verus!
