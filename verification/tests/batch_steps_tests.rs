use oxanus::catalog::{Catalog, CronWorkerInfo, OxanusWebState};
use oxanus::config::Config;
use oxanus::coordinator::{
    batch_item_fates, batch_item_reports, invalid_job_plan, BatchItemFate, BatchPreparation,
};
use oxanus::executor::{batch_outcome_kind, BatchOutcome, JobResultKind, StorageAction};
use oxanus::queue::{QueueConfig, QueueKind};
use oxanus::storage::Storage;
use oxanus::storage_types::WorkerInfo;
use oxanus::worker_registry::{cron_schedule_parses, InvalidBatchJob};

fn is_kill(f: &BatchItemFate, msg: &str) -> bool {
    matches!(f, BatchItemFate::Kill { error } if error == msg)
}

#[test]
fn batch_without_config_kills_every_job() {
    let fates = batch_item_fates("IndexJob", 3, &BatchPreparation::MissingConfig);
    assert_eq!(fates.len(), 3);
    for f in &fates {
        assert!(is_kill(f, "Batch config not found for IndexJob"));
    }
    let reports = batch_item_reports(&fates, JobResultKind::Success);
    assert_eq!(reports, vec![JobResultKind::Failed; 3]);
}

#[test]
fn batch_whose_processor_fails_to_build_kills_every_job() {
    let prep = BatchPreparation::BuildFailed {
        error: "no connection".to_string(),
    };
    let fates = batch_item_fates("IndexJob", 2, &prep);
    assert_eq!(fates.len(), 2);
    for f in &fates {
        assert!(is_kill(f, "Failed to build batch processor: no connection"));
    }
}

#[test]
fn invalid_jobs_of_a_batch_are_killed_and_the_rest_run() {
    let prep = BatchPreparation::Built {
        invalid: vec![InvalidBatchJob {
            index: 1,
            error: "missing field `id`".to_string(),
        }],
    };
    let fates = batch_item_fates("IndexJob", 3, &prep);
    assert_eq!(fates.len(), 3);
    assert!(matches!(fates[0], BatchItemFate::Run));
    assert!(is_kill(&fates[1], "Invalid job: IndexJob - missing field `id`"));
    assert!(matches!(fates[2], BatchItemFate::Run));
    let reports = batch_item_reports(&fates, JobResultKind::Panicked);
    assert_eq!(
        reports,
        vec![
            JobResultKind::Panicked,
            JobResultKind::Failed,
            JobResultKind::Panicked
        ]
    );
}

#[test]
fn empty_batch_has_no_fates() {
    let fates = batch_item_fates("IndexJob", 0, &BatchPreparation::MissingConfig);
    assert!(fates.is_empty());
    assert!(batch_item_reports(&fates, JobResultKind::Success).is_empty());
}

#[test]
fn unbuildable_job_is_killed_and_reported_failed() {
    let plan = invalid_job_plan("MyWorker", "bad args");
    assert_eq!(plan.kind, JobResultKind::Failed);
    assert_eq!(plan.actions.len(), 1);
    assert!(matches!(&plan.actions[0], StorageAction::Kill { error } if error == "Invalid job: MyWorker - bad args"));
}

#[test]
fn batch_is_reported_as_it_ended() {
    assert_eq!(batch_outcome_kind(&BatchOutcome::Succeeded), JobResultKind::Success);
    assert_eq!(
        batch_outcome_kind(&BatchOutcome::Failed {
            error: "e".to_string(),
            retry_delay_overrides: vec![None],
        }),
        JobResultKind::Failed
    );
    assert_eq!(
        batch_outcome_kind(&BatchOutcome::Panicked {
            message: "p".to_string(),
        }),
        JobResultKind::Panicked
    );
}

fn static_queue(key: &str) -> QueueConfig {
    QueueConfig {
        kind: QueueKind::Static {
            key: key.to_string(),
        },
        concurrency: 1,
        throttle: None,
    }
}

#[test]
fn registering_workers_directly() {
    let s = Storage::builder().build();
    let c: Config<u8> = Config::new(&s);
    let c = c
        .register_worker(
            "CronWorker".to_string(),
            1,
            None,
            Some("*/5 * * * * *".to_string()),
            Some(static_queue("maintenance")),
            false,
        )
        .register_worker("PlainWorker".to_string(), 2, None, None, Some(static_queue("x")), true)
        .register_cron_worker(
            "DynamicCron".to_string(),
            3,
            None,
            QueueConfig {
                kind: QueueKind::Dynamic {
                    prefix: "tenant".to_string(),
                    sleep_period_ms: 500,
                },
                concurrency: 1,
                throttle: None,
            },
            "tenant:1".to_string(),
            Some("0 * * * * *".to_string()),
            true,
        );
    assert!(c.has_registered_cron_worker("CronWorker"));
    assert!(c.has_registered_worker("PlainWorker"));
    assert!(!c.has_registered_cron_worker("PlainWorker"));
    assert!(c.has_registered_queue_config(&static_queue("maintenance")));
    assert!(!c.has_registered_queue_config(&static_queue("x")));
    assert_eq!(c.registry().cron_job("CronWorker").unwrap().queue_key, "maintenance");
    assert!(!c.registry().cron_job("CronWorker").unwrap().resurrect);
    assert_eq!(c.registry().cron_job("DynamicCron").unwrap().queue_key, "tenant:1");
    assert_eq!(c.queues().len(), 2);
}

#[test]
fn cron_expressions_are_checked() {
    assert!(cron_schedule_parses("*/1 * * * * *"));
    assert!(!cron_schedule_parses("not a schedule"));
}

#[test]
fn web_state_holds_storage_and_catalog() {
    let schedule: cron::Schedule = "0 */5 * * * *".parse().unwrap();
    let state = OxanusWebState {
        storage: Storage::builder().namespace("web".to_string()).build(),
        catalog: Catalog {
            workers: vec![WorkerInfo {
                name: "W".to_string(),
            }],
            cron_workers: vec![CronWorkerInfo {
                name: "C".to_string(),
                schedule,
                queue_key: "maintenance".to_string(),
                next_run_micros: Some(1_700_000_000_000_000),
            }],
            queues: vec![],
        },
        base_path: "/oxanus".to_string(),
    };
    let copy = state.clone();
    assert_eq!(copy.storage.namespace(), "web");
    assert_eq!(copy.catalog.cron_workers[0].queue_key, "maintenance");
    assert_eq!(copy.base_path, "/oxanus");
}
