use oxanus::job_envelope::{
    default_resurrect, envelope_id, JobConflictStrategy, JobEnvelope, JobMeta,
};

fn json(text: &str) -> serde_json::Value {
    serde_json::from_str(text).unwrap()
}

fn meta_with(created_at: i64, scheduled_at: i64) -> JobMeta {
    JobMeta {
        id: "id".to_string(),
        retries: 0,
        unique: false,
        on_conflict: None,
        created_at,
        scheduled_at,
        state: None,
        resurrect: true,
    }
}

#[test]
fn default_resurrect_is_true() {
    assert!(default_resurrect());
}

#[test]
fn conflict_strategy_defaults_to_skip() {
    assert_eq!(JobConflictStrategy::default(), JobConflictStrategy::Skip);
}

#[test]
fn unique_job_id_is_worker_name_and_unique_id() {
    let e = JobEnvelope::new(
        "queue_one".to_string(),
        "my::Worker".to_string(),
        json("{\"id\": 1}"),
        Some("unique:1".to_string()),
        JobConflictStrategy::Replace,
        true,
    );
    assert_eq!(e.id, "my::Worker/unique:1");
    assert_eq!(e.meta.id, e.id);
    assert_eq!(e.queue, "queue_one");
    assert_eq!(e.job.name, "my::Worker");
    assert_eq!(e.job.args, json("{\"id\": 1}"));
    assert!(e.meta.unique);
    assert_eq!(e.meta.on_conflict, Some(JobConflictStrategy::Replace));
    assert_eq!(e.meta.retries, 0);
    assert!(e.meta.state.is_none());
    assert!(e.meta.resurrect);
    assert!(e.meta.created_at > 0);
    assert!(e.meta.scheduled_at >= e.meta.created_at);
}

#[test]
fn non_unique_job_gets_random_uuid() {
    let a = JobEnvelope::new(
        "q".to_string(),
        "W".to_string(),
        serde_json::Value::Null,
        None,
        JobConflictStrategy::Replace,
        false,
    );
    let b = JobEnvelope::new(
        "q".to_string(),
        "W".to_string(),
        serde_json::Value::Null,
        None,
        JobConflictStrategy::Replace,
        false,
    );
    assert_eq!(a.id.len(), 36);
    for (i, c) in a.id.chars().enumerate() {
        if i == 8 || i == 13 || i == 18 || i == 23 {
            assert_eq!(c, '-');
        } else {
            assert!(c.is_ascii_digit() || ('a'..='f').contains(&c));
        }
    }
    assert_eq!(a.id.chars().nth(14), Some('4'));
    assert!(matches!(a.id.chars().nth(19), Some('8' | '9' | 'a' | 'b')));
    assert!(!a.id.contains('/'));
    assert_ne!(a.id, b.id);
    assert!(!a.meta.unique);
    assert_eq!(a.meta.on_conflict, None);
    assert!(!a.meta.resurrect);
}

#[test]
fn same_unique_job_enqueued_twice_shares_its_id() {
    let first = envelope_id(&"UniqueSkipWorker".to_string(), &Some("unique:1".to_string()));
    let second = envelope_id(&"UniqueSkipWorker".to_string(), &Some("unique:1".to_string()));
    let other = envelope_id(&"UniqueSkipWorker".to_string(), &Some("unique:2".to_string()));
    assert_eq!(first, second);
    assert_ne!(first, other);
}

#[test]
fn cron_envelope_is_unique_and_skips() {
    let e = JobEnvelope::new_cron(
        "cron_q".to_string(),
        "cron-id".to_string(),
        "CronWorker".to_string(),
        1_700_000_000_000_000,
        false,
    );
    assert_eq!(e.id, "cron-id");
    assert_eq!(e.meta.id, "cron-id");
    assert_eq!(e.queue, "cron_q");
    assert_eq!(e.job.name, "CronWorker");
    assert_eq!(e.job.args, json("{}"));
    assert!(e.meta.unique);
    assert_eq!(e.meta.on_conflict, Some(JobConflictStrategy::Skip));
    assert_eq!(e.meta.scheduled_at, 1_700_000_000_000_000);
    assert!(!e.meta.resurrect);
}

#[test]
fn retries_incremented_keeps_the_rest() {
    let e = JobEnvelope::new(
        "q".to_string(),
        "W".to_string(),
        json("[1, 2]"),
        Some("u".to_string()),
        JobConflictStrategy::Skip,
        true,
    );
    let created = e.meta.created_at;
    let r = e.with_retries_incremented();
    assert_eq!(r.meta.retries, 1);
    assert_eq!(r.id, "W/u");
    assert_eq!(r.meta.id, "W/u");
    assert_eq!(r.meta.created_at, created);
    assert_eq!(r.job.args, json("[1, 2]"));
    let r2 = r.with_retries_incremented();
    assert_eq!(r2.meta.retries, 2);
}

#[test]
fn time_conversions_truncate_towards_zero() {
    let m = meta_with(1_234_567_890, -1_500_999);
    assert_eq!(m.created_at_secs(), 1_234);
    assert_eq!(m.created_at_millis(), 1_234_567);
    assert_eq!(m.scheduled_at_secs(), -1);
    assert_eq!(m.scheduled_at_millis(), -1_500);
}

#[test]
fn latency_is_time_since_scheduled_or_zero() {
    let m = meta_with(0, 1_000_000);
    assert_eq!(m.latency_micros_at(3_500_000), 2_500_000);
    assert_eq!(m.latency_micros_at(500_000), 0);
    let past = meta_with(0, 1_000_000);
    assert!(past.latency_micros() > 0);
    assert!(past.latency_secs() >= 1_000_000_000);
    assert!(past.latency_millis() >= 1_000_000_000_000);
    let future = meta_with(0, 800_000_000_000_000_000);
    assert_eq!(future.latency_micros(), 0);
}
