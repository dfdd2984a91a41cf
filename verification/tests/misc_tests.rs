use oxanus::dispatcher::{dispatch_action, throttle_wait_ms, DispatchAction};
use oxanus::queue::{QueueConfig, QueueKind};
use oxanus::semaphores_map::busy_permits;
use oxanus::stats::Process;
use oxanus::storage::{enqueue_timing, EnqueueTiming, Storage, StorageBuilder};
use oxanus::storage_types::QueueListOpts;
use oxanus::test_helper::random_string;
use oxanus::text::decimal_string;

#[test]
fn process_id_is_host_and_pid() {
    let p = Process {
        hostname: "worker-host".to_string(),
        pid: 4321,
        heartbeat_at: 0,
        started_at: 0,
    };
    assert_eq!(p.id(), "worker-host-4321");
    let zero = Process {
        hostname: "h".to_string(),
        pid: 0,
        heartbeat_at: 1,
        started_at: 1,
    };
    assert_eq!(zero.id(), "h-0");
}

#[test]
fn decimal_rendering() {
    assert_eq!(decimal_string(0), "0");
    assert_eq!(decimal_string(7), "7");
    assert_eq!(decimal_string(10), "10");
    assert_eq!(decimal_string(1_234_567_890), "1234567890");
    assert_eq!(decimal_string(u64::MAX), u64::MAX.to_string());
}

#[test]
fn storage_namespace() {
    let s = Storage::builder().namespace("app".to_string()).build();
    assert_eq!(s.namespace(), "app");
    assert_eq!(s.clone().namespace(), "app");
    let d = StorageBuilder::new().build();
    assert_eq!(d.namespace(), "");
}

#[test]
fn enqueue_with_delay_is_scheduled() {
    assert_eq!(enqueue_timing(0), EnqueueTiming::Immediate);
    assert_eq!(enqueue_timing(300), EnqueueTiming::Delayed { seconds: 300 });
}

#[test]
fn dispatcher_decisions() {
    match dispatch_action(Some(Some("job-9".to_string()))) {
        DispatchAction::Send { job_id } => assert_eq!(job_id, "job-9"),
        _ => panic!("expected the job to be sent"),
    }
    assert!(matches!(dispatch_action(Some(None)), DispatchAction::Release));
    assert!(matches!(dispatch_action(None), DispatchAction::ReleaseAndSleep));
    assert_eq!(throttle_wait_ms(Some(1500), 100), 1500);
    assert_eq!(throttle_wait_ms(Some(-1), 100), 100);
    assert_eq!(throttle_wait_ms(None, 100), 100);
}

#[test]
fn busy_permits_sum_over_semaphores() {
    assert_eq!(busy_permits(&vec![], &vec![]), 0);
    assert_eq!(busy_permits(&vec![6, 6, 10], &vec![6, 2, 7]), 7);
}

#[test]
fn random_names_are_alphanumeric() {
    let a = random_string();
    let b = random_string();
    assert_eq!(a.len(), 16);
    assert!(a.chars().all(|c| c.is_ascii_alphanumeric()));
    assert_ne!(a, b);
}

#[test]
fn queue_configuration() {
    let s = QueueConfig {
        kind: QueueKind::Static {
            key: "emails".to_string(),
        },
        concurrency: 5,
        throttle: None,
    };
    assert_eq!(s.static_key(), Some("emails".to_string()));
    assert_eq!(s.dynamic_pattern(), None);
    let d = QueueConfig {
        kind: QueueKind::Dynamic {
            prefix: "orders".to_string(),
            sleep_period_ms: 500,
        },
        concurrency: 1,
        throttle: None,
    };
    assert_eq!(d.static_key(), None);
    assert_eq!(d.dynamic_pattern(), Some("orders*".to_string()));
    assert!(s.same_as(&s.clone()));
    assert!(!s.same_as(&d));
    let opts = QueueListOpts { count: 50, offset: 0 };
    assert_eq!(opts.count, 50);
}
