use nomad_exec::job::RustJob;
use nomad_exec::lifecycle::{stderr_log_path, stdout_log_path};

#[test]
fn job_ids_unique() {
    let code = "fn main() { println!(\"hi\"); }";
    let first = RustJob::new(code);
    let second = RustJob::new(code);
    assert_ne!(first.job_id(), second.job_id());
}

#[test]
fn job_id_shape() {
    let job = RustJob::new("fn main() {}");
    let id = job.job_id();
    assert!(id.starts_with("execute-rust-"));
    assert_eq!(id.len(), "execute-rust-".len() + 36);
}

#[test]
fn job_name_value() {
    let job = RustJob::new("fn main() {}");
    assert_eq!(job.job_name(), "execute-rust");
}

#[test]
fn spec_well_formed() {
    let code = "fn main() { println!(\"hello\"); }";
    let job = RustJob::new(code);
    let js = job.create_job_request("registry.example/rust-runner:1");

    assert_eq!(js.id, job.job_id());
    assert_eq!(js.name, "execute-rust");
    assert_eq!(js.job_type, "batch");
    assert_eq!(js.task_groups.len(), 1);

    let group = &js.task_groups[0];
    assert_eq!(group.name, "execute-rust");
    assert_eq!(group.restart_policy.attempts, 0);
    assert_eq!(group.restart_policy.mode, "fail");
    assert_eq!(group.reschedule_policy.attempts, 0);
    assert!(!group.reschedule_policy.unlimited);
    assert_eq!(group.tasks.len(), 1);

    let task = &group.tasks[0];
    assert_eq!(task.name, "execute-rust");
    assert_eq!(task.driver, "docker");
    assert_eq!(task.config.image, "registry.example/rust-runner:1");
    assert_eq!(task.config.mounts.len(), 1);
    assert_eq!(task.config.mounts[0].source, "local/main.rs");
    assert_eq!(task.config.mounts[0].target, "/templates/rust/src/main.rs");
    assert_eq!(task.config.mounts[0].mount_type, "bind");
    assert_eq!(task.templates.len(), 1);
    assert_eq!(task.templates[0].embedded_tmpl, code);
    assert_eq!(task.templates[0].dest_path, "local/main.rs");
}

#[test]
fn code_kept_verbatim() {
    let code = "fn main() {\n    let x = \"\\u{1F980} bytes stay as written\";\n}\n";
    let job = RustJob::new(code);
    let js = job.create_job_request("img");
    assert_eq!(js.task_groups[0].tasks[0].templates[0].embedded_tmpl, code);
}

#[test]
fn log_paths_exact() {
    assert_eq!(
        stdout_log_path("execute-rust"),
        "alloc/logs/execute-rust.stdout.0"
    );
    assert_eq!(
        stderr_log_path("execute-rust"),
        "alloc/logs/execute-rust.stderr.0"
    );
}
