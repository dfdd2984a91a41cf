use oxanus::error::OxanusError;
use oxanus::worker_registry::{
    job_batch_build_failure, job_build_failure, partition_batch_items, WorkerBatchConfig,
    WorkerConfig, WorkerConfigKind, WorkerRegistry,
};

fn normal(name: &str, factory: u32, batch: Option<WorkerBatchConfig>) -> WorkerConfig<u32> {
    WorkerConfig {
        name: name.to_string(),
        factory,
        batch_config: batch,
        kind: WorkerConfigKind::Normal,
    }
}

fn cron_config(name: &str, schedule: &str, queue_key: &str) -> WorkerConfig<u32> {
    WorkerConfig {
        name: name.to_string(),
        factory: 7,
        batch_config: None,
        kind: WorkerConfigKind::Cron {
            schedule: schedule.to_string(),
            queue_key: queue_key.to_string(),
            resurrect: true,
        },
    }
}

#[test]
fn registered_worker_is_found_by_name() {
    let mut r: WorkerRegistry<u32> = WorkerRegistry::new();
    assert!(!r.has_registered("a::Worker"));
    r.register_worker_with(normal("a::Worker", 1, None));
    assert!(r.has_registered("a::Worker"));
    assert!(!r.has_registered_cron("a::Worker"));
    assert_eq!(*r.factory("a::Worker").unwrap(), 1);
    r.register_worker_with(normal("a::Worker", 2, None));
    assert_eq!(*r.factory("a::Worker").unwrap(), 2);
    assert_eq!(r.worker_names(), vec!["a::Worker".to_string()]);
}

#[test]
fn unknown_worker_is_reported() {
    let r: WorkerRegistry<u32> = WorkerRegistry::new();
    match r.factory("missing::Worker") {
        Err(OxanusError::GenericError(m)) => {
            assert_eq!(m, "Job type missing::Worker not registered")
        }
        _ => panic!("expected an error"),
    }
}

#[test]
fn factory_failures_name_the_worker() {
    match job_build_failure("W", "missing field `id`") {
        OxanusError::JobFactoryError(m) => assert_eq!(m, "Failed to build job W: missing field `id`"),
        _ => panic!("expected a factory error"),
    }
    match job_batch_build_failure("W", "oops") {
        OxanusError::JobFactoryError(m) => assert_eq!(m, "Failed to build job batch W: oops"),
        _ => panic!("expected a factory error"),
    }
}

#[test]
fn cron_worker_is_registered_with_its_schedule() {
    let mut r: WorkerRegistry<u32> = WorkerRegistry::new();
    r.register_worker_with(cron_config("CronCounterWorker", "* * * * * *", "two"));
    assert!(r.has_registered("CronCounterWorker"));
    assert!(r.has_registered_cron("CronCounterWorker"));
    let job = r.cron_job("CronCounterWorker").unwrap();
    assert_eq!(job.queue_key, "two");
    assert!(job.resurrect);
    assert_eq!(job.schedule.source(), "* * * * * *");
    assert_eq!(r.cron_worker_names(), vec!["CronCounterWorker".to_string()]);
}

#[test]
fn invalid_cron_schedule_is_refused() {
    let mut r: WorkerRegistry<u32> = WorkerRegistry::new();
    match r.try_register_worker_with(cron_config("Bad", "not a schedule", "q")) {
        Err(OxanusError::GenericError(m)) => {
            assert_eq!(m, "Bad: Invalid cron schedule: not a schedule")
        }
        _ => panic!("expected an error"),
    }
    assert!(!r.has_registered("Bad"));
    assert!(!r.has_registered_cron("Bad"));
    assert!(r.try_register_worker_with(cron_config("Good", "*/5 * * * * *", "q")).is_ok());
    assert!(r.has_registered_cron("Good"));
    assert!(r.try_register_worker_with(normal("Plain", 3, None)).is_ok());
}

#[test]
fn batch_configuration_of_workers() {
    let mut r: WorkerRegistry<u32> = WorkerRegistry::new();
    assert!(!r.has_batch_workers());
    assert_eq!(r.max_batch_size(), 1);
    r.register_worker_with(normal("Single", 1, None));
    r.register_worker_with(normal(
        "Batch3",
        2,
        Some(WorkerBatchConfig {
            batch_size: 3,
            batch_linger_ms: 500,
        }),
    ));
    r.register_worker_with(normal(
        "Batch5",
        3,
        Some(WorkerBatchConfig {
            batch_size: 5,
            batch_linger_ms: 100,
        }),
    ));
    assert!(r.has_batch_workers());
    assert_eq!(r.max_batch_size(), 5);
    assert_eq!(r.batch_config("Single"), None);
    assert_eq!(
        r.batch_config("Batch3"),
        Some(WorkerBatchConfig {
            batch_size: 3,
            batch_linger_ms: 500
        })
    );
    assert_eq!(r.batch_config("missing"), None);
}

#[test]
fn batch_items_are_partitioned_in_order() {
    let results: Vec<Result<u32, String>> = vec![
        Ok(1),
        Err("bad value".to_string()),
        Ok(3),
        Err("missing field".to_string()),
    ];
    let (jobs, invalid) = partition_batch_items(results);
    assert_eq!(jobs, vec![1, 3]);
    assert_eq!(invalid.len(), 2);
    assert_eq!(invalid[0].index, 1);
    assert_eq!(invalid[0].error, "bad value");
    assert_eq!(invalid[1].index, 3);
    assert_eq!(invalid[1].error, "missing field");
    let (none, all_bad) = partition_batch_items::<u32>(vec![Err("x".to_string())]);
    assert!(none.is_empty());
    assert_eq!(all_bad.len(), 1);
}
