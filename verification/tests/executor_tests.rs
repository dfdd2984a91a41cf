use oxanus::error::OxanusError;
use oxanus::executor::{
    check_batch, effective_retry_delay, failure_actions, plan_batch, plan_job, BatchOutcome,
    BatchPlan, JobExecutionPolicy, JobOutcome, JobResultKind, StorageAction,
};

fn is_kill(a: &StorageAction, msg: &str) -> bool {
    matches!(a, StorageAction::Kill { error } if error == msg)
}

fn is_retry(a: &StorageAction, d: u64, msg: &str) -> bool {
    matches!(a, StorageAction::RetryIn { delay, error } if *delay == d && error == msg)
}

#[test]
fn success_finishes_the_job() {
    let plan = plan_job(0, 2, 25, JobOutcome::Succeeded);
    assert_eq!(plan.kind, JobResultKind::Success);
    assert_eq!(plan.actions.len(), 1);
    assert!(matches!(plan.actions[0], StorageAction::FinishWithSuccess));
}

#[test]
fn failure_without_retries_left_kills_the_job() {
    let plan = plan_job(
        0,
        0,
        0,
        JobOutcome::Failed {
            error: "I have nothing to live for...".to_string(),
            retry_delay_override: None,
        },
    );
    assert_eq!(plan.kind, JobResultKind::Failed);
    assert_eq!(plan.actions.len(), 1);
    assert!(is_kill(&plan.actions[0], "I have nothing to live for..."));
}

#[test]
fn failure_with_retries_left_is_retried() {
    let plan = plan_job(
        1,
        2,
        125,
        JobOutcome::Failed {
            error: "boom".to_string(),
            retry_delay_override: None,
        },
    );
    assert_eq!(plan.actions.len(), 2);
    assert!(matches!(plan.actions[0], StorageAction::FinishWithFailure));
    assert!(is_retry(&plan.actions[1], 125, "boom"));

    let overridden = plan_job(
        1,
        2,
        125,
        JobOutcome::Failed {
            error: "boom".to_string(),
            retry_delay_override: Some(7),
        },
    );
    assert!(is_retry(&overridden.actions[1], 7, "boom"));
    assert_eq!(effective_retry_delay(Some(7), 125), 7);
    assert_eq!(effective_retry_delay(None, 125), 125);
}

#[test]
fn panic_is_reported_and_uses_the_workers_delay() {
    let dead = plan_job(
        0,
        0,
        25,
        JobOutcome::Panicked {
            message: "test panic".to_string(),
        },
    );
    assert_eq!(dead.kind, JobResultKind::Panicked);
    assert_eq!(dead.actions.len(), 1);
    assert!(is_kill(&dead.actions[0], "test panic"));

    let retried = plan_job(
        0,
        2,
        25,
        JobOutcome::Panicked {
            message: "test panic".to_string(),
        },
    );
    assert!(is_retry(&retried.actions[1], 25, "test panic"));
}

#[test]
fn failure_actions_by_retry_count() {
    let last = failure_actions(2, 2, 625, "e".to_string());
    assert_eq!(last.len(), 1);
    assert!(is_kill(&last[0], "e"));
    let more = failure_actions(1, 2, 125, "e".to_string());
    assert_eq!(more.len(), 2);
}

#[test]
fn batch_sizes_are_checked() {
    assert!(matches!(check_batch(3, 0), Ok(false)));
    assert!(matches!(check_batch(3, 3), Ok(true)));
    match check_batch(2, 3) {
        Err(OxanusError::GenericError(m)) => {
            assert_eq!(m, "Batch worker has 2 jobs but received 3 envelopes")
        }
        _ => panic!("expected an error"),
    }
}

#[test]
fn batch_failure_is_planned_per_job() {
    let retries = vec![0, 2];
    let policies = vec![
        JobExecutionPolicy {
            max_retries: 2,
            retry_delay: 25,
        },
        JobExecutionPolicy {
            max_retries: 2,
            retry_delay: 625,
        },
    ];
    assert!(matches!(
        plan_batch(&retries, &policies, BatchOutcome::Succeeded),
        BatchPlan::FinishAll
    ));
    match plan_batch(
        &retries,
        &policies,
        BatchOutcome::Failed {
            error: "bad batch".to_string(),
            retry_delay_overrides: vec![Some(1), None],
        },
    ) {
        BatchPlan::PerJob(per_job) => {
            assert_eq!(per_job.len(), 2);
            assert!(is_retry(&per_job[0][1], 1, "bad batch"));
            assert!(is_kill(&per_job[1][0], "bad batch"));
        }
        BatchPlan::FinishAll => panic!("expected per-job actions"),
    }
    match plan_batch(
        &retries,
        &policies,
        BatchOutcome::Panicked {
            message: "p".to_string(),
        },
    ) {
        BatchPlan::PerJob(per_job) => {
            assert!(is_retry(&per_job[0][1], 25, "p"));
            assert!(is_kill(&per_job[1][0], "p"));
        }
        BatchPlan::FinishAll => panic!("expected per-job actions"),
    }
}
