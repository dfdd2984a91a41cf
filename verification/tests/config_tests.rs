use oxanus::config::Config;
use oxanus::error::OxanusError;
use oxanus::queue::{QueueConfig, QueueKind, QueueThrottle};
use oxanus::storage::Storage;

fn queue(key: &str) -> QueueConfig {
    QueueConfig {
        kind: QueueKind::Static {
            key: key.to_string(),
        },
        concurrency: 2,
        throttle: None,
    }
}

fn storage() -> Storage {
    Storage::builder().namespace("ns".to_string()).build()
}

#[test]
fn new_config_is_empty() {
    let s = storage();
    let c: Config<u8> = Config::new(&s);
    assert_eq!(c.exit_when_processed_limit(), None);
    assert_eq!(c.shutdown_timeout_ms(), 180_000);
    assert_eq!(c.storage().namespace(), "ns");
    assert!(c.queues().is_empty());
    assert!(!c.has_registered_worker("W"));
}

#[test]
fn queues_are_registered_once() {
    let s = storage();
    let mut c: Config<u8> = Config::new(&s);
    c.register_queue_with(queue("two"));
    c.register_queue_with(queue("two"));
    assert_eq!(c.queues().len(), 1);
    assert!(c.has_registered_queue_config(&queue("two")));
    assert!(!c.has_registered_queue_config(&queue("one")));
    let mut throttled = queue("two");
    throttled.throttle = Some(QueueThrottle {
        window_ms: 2000,
        limit: 5,
    });
    assert!(!c.has_registered_queue_config(&throttled));
    c.register_queue_with(throttled);
    assert_eq!(c.queues().len(), 2);
}

#[test]
fn cron_worker_registers_its_queue() {
    let s = storage();
    let c: Config<u8> = Config::new(&s);
    let c = c
        .try_register_worker(
            "CronCounterWorker".to_string(),
            1,
            None,
            Some("* * * * * *".to_string()),
            Some(queue("two")),
            true,
        )
        .unwrap()
        .try_register_worker("CounterWorker".to_string(), 2, None, None, None, true)
        .unwrap()
        .exit_when_processed(2);
    assert!(c.has_registered_queue_config(&queue("two")));
    assert!(c.has_registered_worker("CounterWorker"));
    assert!(!c.has_registered_cron_worker("CounterWorker"));
    assert!(c.has_registered_cron_worker("CronCounterWorker"));
    assert_eq!(c.exit_when_processed_limit(), Some(2));
    assert_eq!(
        c.registry().cron_job("CronCounterWorker").unwrap().queue_key,
        "two"
    );
}

#[test]
fn cron_worker_on_dynamic_queue_is_refused() {
    let s = storage();
    let c: Config<u8> = Config::new(&s);
    let dynamic = QueueConfig {
        kind: QueueKind::Dynamic {
            prefix: "orders".to_string(),
            sleep_period_ms: 1000,
        },
        concurrency: 1,
        throttle: None,
    };
    match c.try_register_worker(
        "W".to_string(),
        1,
        None,
        Some("* * * * * *".to_string()),
        Some(dynamic),
        true,
    ) {
        Err(OxanusError::GenericError(m)) => {
            assert_eq!(m, "Statically defined cron workers can only use static queues")
        }
        _ => panic!("expected an error"),
    }
}

#[test]
fn cron_worker_needs_a_valid_schedule() {
    let s = storage();
    let c: Config<u8> = Config::new(&s);
    match c.try_register_cron_worker("W".to_string(), 1, None, queue("q"), "q".to_string(), None, true) {
        Err(OxanusError::GenericError(m)) => {
            assert_eq!(m, "Cron Worker must have cron_schedule defined")
        }
        _ => panic!("expected an error"),
    }
    let c: Config<u8> = Config::new(&s);
    match c.try_register_cron_worker(
        "W".to_string(),
        1,
        None,
        queue("q"),
        "q".to_string(),
        Some("every day".to_string()),
        true,
    ) {
        Err(OxanusError::GenericError(m)) => assert_eq!(m, "W: Invalid cron schedule: every day"),
        _ => panic!("expected an error"),
    }
    let c: Config<u8> = Config::new(&s);
    let c = c
        .try_register_cron_worker(
            "W".to_string(),
            1,
            None,
            queue("q"),
            "q:1".to_string(),
            Some("0 */5 * * * *".to_string()),
            false,
        )
        .unwrap();
    assert!(c.has_registered_cron_worker("W"));
    assert!(c.has_registered_queue_config(&queue("q")));
    let job = c.registry().cron_job("W").unwrap();
    assert_eq!(job.queue_key, "q:1");
    assert!(!job.resurrect);
}
