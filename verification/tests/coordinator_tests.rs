use oxanus::coordinator::{
    batch_check_interval_ms, batch_processor_failure_message, effective_concurrency,
    invalid_job_message, missing_batch_config_message, missing_job_envelope, shutdown_wait_step,
    watcher_step, BatchBuffers, QueueTracker, ShutdownWait, WatcherStep,
};
use oxanus::worker_registry::{WorkerBatchConfig, WorkerConfig, WorkerConfigKind, WorkerRegistry};

fn batching_registry(linger_ms: u64) -> WorkerRegistry<()> {
    let mut r = WorkerRegistry::new();
    r.register_worker_with(WorkerConfig {
        name: "BatchItemJob".to_string(),
        factory: (),
        batch_config: Some(WorkerBatchConfig {
            batch_size: 3,
            batch_linger_ms: linger_ms,
        }),
        kind: WorkerConfigKind::Normal,
    });
    r
}

#[test]
fn seven_jobs_in_batches_of_three() {
    let registry = batching_registry(500);
    let mut buffers: BatchBuffers<usize> = BatchBuffers::new();
    let mut sizes: Vec<usize> = Vec::new();
    let mut values: Vec<usize> = Vec::new();
    for i in 1..=7 {
        if let Some(batch) = buffers.push("BatchItemJob".to_string(), i, 0, 3) {
            sizes.push(batch.len());
            values.extend(batch);
        }
    }
    assert_eq!(sizes, vec![3, 3]);
    assert!(buffers.take_ready(&registry, 100, false).is_empty());
    let rest = buffers.take_ready(&registry, 100, true);
    assert_eq!(rest.len(), 1);
    assert_eq!(rest[0].worker_name, "BatchItemJob");
    sizes.push(rest[0].items.len());
    values.extend(rest[0].items.iter().copied());
    sizes.sort();
    assert_eq!(sizes, vec![1, 3, 3]);
    assert_eq!(sizes.iter().sum::<usize>(), 7);
    assert_eq!(values, vec![1, 2, 3, 4, 5, 6, 7]);
    assert!(buffers.take_ready(&registry, 100, true).is_empty());
}

#[test]
fn partial_batch_leaves_after_its_linger_time() {
    let registry = batching_registry(500);
    let mut buffers: BatchBuffers<&str> = BatchBuffers::new();
    assert!(buffers.push("BatchItemJob".to_string(), "a", 1_000, 3).is_none());
    assert!(buffers.push("BatchItemJob".to_string(), "b", 1_200, 3).is_none());
    assert!(buffers.take_ready(&registry, 1_499, false).is_empty());
    let ready = buffers.take_ready(&registry, 1_500, false);
    assert_eq!(ready.len(), 1);
    assert_eq!(ready[0].items, vec!["a", "b"]);
}

#[test]
fn jobs_of_workers_without_batch_config_only_leave_when_draining() {
    let registry: WorkerRegistry<()> = WorkerRegistry::new();
    let mut buffers: BatchBuffers<u8> = BatchBuffers::new();
    assert!(buffers.push("Other".to_string(), 1, 0, 10).is_none());
    assert!(buffers.take_ready(&registry, 1_000_000, false).is_empty());
    assert_eq!(buffers.take_ready(&registry, 0, true).len(), 1);
}

#[test]
fn batch_size_of_one_sends_each_job_alone() {
    let mut buffers: BatchBuffers<u8> = BatchBuffers::new();
    assert_eq!(buffers.push("W".to_string(), 9, 0, 1), Some(vec![9]));
}

#[test]
fn concurrency_and_timers() {
    assert_eq!(effective_concurrency(2, 3), 6);
    assert_eq!(effective_concurrency(4, 1), 4);
    assert_eq!(batch_check_interval_ms(true), 50);
    assert_eq!(batch_check_interval_ms(false), 86_400_000);
}

#[test]
fn queues_are_watched_once() {
    let mut tracker = QueueTracker::new();
    let first = tracker.track(&vec!["orders:eu".to_string(), "orders:us".to_string()]);
    assert_eq!(first, vec!["orders:eu".to_string(), "orders:us".to_string()]);
    let second = tracker.track(&vec![
        "orders:us".to_string(),
        "orders:asia".to_string(),
        "orders:asia".to_string(),
    ]);
    assert_eq!(second, vec!["orders:asia".to_string()]);
    assert!(tracker.track(&vec!["orders:eu".to_string()]).is_empty());
}

#[test]
fn watcher_stops_for_static_queues_and_on_cancel() {
    assert!(matches!(watcher_step(false, None), WatcherStep::Stop));
    assert!(matches!(watcher_step(true, Some(100)), WatcherStep::Stop));
    assert!(matches!(watcher_step(false, Some(100)), WatcherStep::SleepMs(100)));
}

#[test]
fn shutdown_waits_for_running_jobs_until_timeout() {
    assert_eq!(shutdown_wait_step(1, 0, 999_999, 180_000), ShutdownWait::Finished);
    assert_eq!(
        shutdown_wait_step(1, 2, 10, 180_000),
        ShutdownWait::Sleep { report: false }
    );
    assert_eq!(
        shutdown_wait_step(200, 2, 10, 180_000),
        ShutdownWait::Sleep { report: true }
    );
    assert_eq!(
        shutdown_wait_step(7, 1, 180_001, 180_000),
        ShutdownWait::TimedOut { report: false }
    );
}

#[test]
fn missing_job_is_reported_as_unknown() {
    let e = missing_job_envelope("job-1".to_string(), "queue_one".to_string());
    assert_eq!(e.id, "job-1");
    assert_eq!(e.meta.id, "job-1");
    assert_eq!(e.queue, "queue_one");
    assert_eq!(e.job.name, "unknown");
    assert_eq!(e.job.args, serde_json::Value::Null);
    assert!(!e.meta.resurrect);
    assert_eq!(e.meta.created_at, 0);
}

#[test]
fn messages_of_failed_jobs() {
    assert_eq!(
        invalid_job_message("W", "Job type W not registered"),
        "Invalid job: W - Job type W not registered"
    );
    assert_eq!(
        missing_batch_config_message("BatchItemJob"),
        "Batch config not found for BatchItemJob"
    );
    assert_eq!(
        batch_processor_failure_message("bad args"),
        "Failed to build batch processor: bad args"
    );
}
