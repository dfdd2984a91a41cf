use oxanus::job_envelope::JobConflictStrategy;
use oxanus::queue::{QueueConfig, QueueKind};
use oxanus::worker::{default_retry_delay, worker_config_kind, Worker};
use oxanus::worker_registry::WorkerConfigKind;

struct PlainWorker;

impl Worker for PlainWorker {}

struct CustomWorker {
    id: i32,
    task: String,
}

impl Worker for CustomWorker {
    fn max_retries(&self) -> u32 {
        9
    }

    fn retry_delay(&self, retries: u32) -> u64 {
        retries as u64 * 2
    }

    fn unique_id(&self) -> Option<String> {
        Some(format!("worker_id_{}_task_{}", self.id, self.task))
    }

    fn on_conflict(&self) -> JobConflictStrategy {
        JobConflictStrategy::Replace
    }
}

fn default_queue() -> QueueConfig {
    QueueConfig {
        kind: QueueKind::Static {
            key: "default".to_string(),
        },
        concurrency: 1,
        throttle: None,
    }
}

struct CronWorker;

impl Worker for CronWorker {
    fn cron_schedule() -> Option<String> {
        Some("*/1 * * * * *".to_string())
    }

    fn cron_queue_config() -> Option<QueueConfig> {
        Some(default_queue())
    }
}

#[test]
fn default_policy_of_a_worker() {
    let w = PlainWorker;
    assert_eq!(w.max_retries(), 2);
    assert_eq!(w.on_conflict(), JobConflictStrategy::Skip);
    assert_eq!(w.unique_id(), None);
    assert_eq!(w.retry_delay(0), 25);
    assert!(PlainWorker::should_resurrect());
    assert!(PlainWorker::cron_schedule().is_none());
    assert!(matches!(PlainWorker::to_config(), WorkerConfigKind::Normal));
}

#[test]
fn default_backoff_is_five_to_the_retries_plus_two() {
    let expected: [u64; 8] = [25, 125, 625, 3125, 15625, 78125, 390625, 1953125];
    for (retries, delay) in expected.iter().enumerate() {
        assert_eq!(default_retry_delay(retries as u32), *delay);
    }
    assert_eq!(default_retry_delay(25), 7_450_580_596_923_828_125);
}

#[test]
fn overridden_policy_of_a_worker() {
    let w = CustomWorker {
        id: 2,
        task: "22".to_string(),
    };
    assert_eq!(w.max_retries(), 9);
    assert_eq!(w.retry_delay(1), 2);
    assert_eq!(w.retry_delay(2), 4);
    assert_eq!(w.unique_id().unwrap(), "worker_id_2_task_22");
    assert_eq!(w.on_conflict(), JobConflictStrategy::Replace);
}

#[test]
fn cron_worker_with_static_queue_registers_as_cron() {
    assert_eq!(CronWorker::cron_schedule().unwrap(), "*/1 * * * * *");
    match CronWorker::to_config() {
        WorkerConfigKind::Cron {
            schedule,
            queue_key,
            resurrect,
        } => {
            assert_eq!(schedule, "*/1 * * * * *");
            assert_eq!(queue_key, "default");
            assert!(resurrect);
        }
        WorkerConfigKind::Normal => panic!("expected a cron worker"),
    }
}

#[test]
fn cron_worker_with_dynamic_queue_registers_as_normal() {
    let dynamic = QueueConfig {
        kind: QueueKind::Dynamic {
            prefix: "orders".to_string(),
            sleep_period_ms: 1000,
        },
        concurrency: 1,
        throttle: None,
    };
    assert!(matches!(
        worker_config_kind(Some("* * * * * *".to_string()), Some(dynamic), true),
        WorkerConfigKind::Normal
    ));
    assert!(matches!(
        worker_config_kind(None, Some(default_queue()), true),
        WorkerConfigKind::Normal
    ));
    assert!(matches!(
        worker_config_kind(Some("* * * * * *".to_string()), None, true),
        WorkerConfigKind::Normal
    ));
}
