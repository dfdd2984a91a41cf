//! What happens to a job after its worker ran: it is finished, retried
//! after a delay, or killed (moved to the dead jobs) once it has used up its
//! retries.

use vstd::prelude::*;
use crate::error::OxanusError;
use crate::text::{decimal, push_decimal};

verus! {

/// How a job ended, as reported to the result collector.
#[derive(Debug, Clone, Copy, PartialEq, Eq, Structural)]
pub enum JobResultKind {
    Success,
    Failed,
    Panicked,
}

/// What came of running a job's worker.
pub enum JobOutcome {
    /// The worker returned `Ok`.
    Succeeded,
    /// The worker returned an error; the application may override the
    /// retry delay for that error.
    Failed { error: String, retry_delay_override: Option<u64> },
    /// The worker panicked with the given message.
    Panicked { message: String },
}

/// A change to make to the stored job.
#[derive(Debug)]
pub enum StorageAction {
    /// Record the job as done.
    FinishWithSuccess,
    /// Record that this run of the job failed.
    FinishWithFailure,
    /// Run the job again after `delay` seconds, recording the error.
    RetryIn { delay: u64, error: String },
    /// Move the job to the dead jobs, recording the error.
    Kill { error: String },
}

/// The abstract value of a [`StorageAction`].
pub enum StorageActionView {
    FinishWithSuccess,
    FinishWithFailure,
    RetryIn { delay: u64, error: Seq<char> },
    Kill { error: Seq<char> },
}

impl View for StorageAction {
    type V = StorageActionView;

    open spec fn view(&self) -> StorageActionView {
        match self {
            StorageAction::FinishWithSuccess => StorageActionView::FinishWithSuccess,
            StorageAction::FinishWithFailure => StorageActionView::FinishWithFailure,
            StorageAction::RetryIn { delay, error } => StorageActionView::RetryIn {
                delay: *delay,
                error: error@,
            },
            StorageAction::Kill { error } => StorageActionView::Kill { error: error@ },
        }
    }
}

/// The abstract values of a sequence of actions.
pub open spec fn action_views(v: Seq<StorageAction>) -> Seq<StorageActionView> {
    v.map_values(|a: StorageAction| a@)
}

/// What is done with a job that failed after `retries` earlier retries:
/// while it has retries left it is recorded as failed and retried after
/// `retry_delay` seconds; otherwise it is killed.
pub open spec fn spec_failure_actions(
    retries: u32,
    max_retries: u32,
    retry_delay: u64,
    error: Seq<char>,
) -> Seq<StorageActionView> {
    if retries < max_retries {
        seq![
            StorageActionView::FinishWithFailure,
            StorageActionView::RetryIn { delay: retry_delay, error },
        ]
    } else {
        seq![StorageActionView::Kill { error }]
    }
}

/// The actions for a job that failed after `retries` earlier retries.
pub fn failure_actions(retries: u32, max_retries: u32, retry_delay: u64, error: String) -> (r: Vec<
    StorageAction,
>)
    ensures
        action_views(r@) == spec_failure_actions(retries, max_retries, retry_delay, error@),
{
    let mut r: Vec<StorageAction> = Vec::new();
    if retries < max_retries {
        r.push(StorageAction::FinishWithFailure);
        r.push(StorageAction::RetryIn { delay: retry_delay, error });
    } else {
        r.push(StorageAction::Kill { error });
    }
    assert(action_views(r@) =~= spec_failure_actions(retries, max_retries, retry_delay, error@));
    r
}

/// The retry delay used after a failure: the application's override for
/// the error if it gave one, the worker's delay otherwise.
pub fn effective_retry_delay(retry_delay_override: Option<u64>, default_delay: u64) -> (r: u64)
    ensures
        r == match retry_delay_override {
            Some(d) => d,
            None => default_delay,
        },
{
    match retry_delay_override {
        Some(d) => d,
        None => default_delay,
    }
}

/// The plan for a job after its worker ran: the actions on the stored job
/// and how the job is reported.
pub struct JobPlan {
    pub actions: Vec<StorageAction>,
    pub kind: JobResultKind,
}

/// The actions and report that follow a run of a job: a success finishes
/// it; an error or a panic retries it while it has retries left and kills
/// it otherwise. An error uses the application's retry delay override if
/// there is one; a panic always uses the worker's delay.
pub open spec fn spec_plan(
    retries: u32,
    max_retries: u32,
    default_delay: u64,
    outcome: JobOutcome,
) -> (Seq<StorageActionView>, JobResultKind) {
    match outcome {
        JobOutcome::Succeeded => (seq![StorageActionView::FinishWithSuccess], JobResultKind::Success),
        JobOutcome::Failed { error, retry_delay_override } => (
            spec_failure_actions(
                retries,
                max_retries,
                match retry_delay_override {
                    Some(d) => d,
                    None => default_delay,
                },
                error@,
            ),
            JobResultKind::Failed,
        ),
        JobOutcome::Panicked { message } => (
            spec_failure_actions(retries, max_retries, default_delay, message@),
            JobResultKind::Panicked,
        ),
    }
}

/// Plans what follows a run of a job that had been retried `retries` times,
/// whose worker allows `max_retries` retries with a delay of `default_delay`
/// seconds before the next one.
pub fn plan_job(retries: u32, max_retries: u32, default_delay: u64, outcome: JobOutcome) -> (r:
    JobPlan)
    ensures
        (action_views(r.actions@), r.kind) == spec_plan(
            retries,
            max_retries,
            default_delay,
            outcome,
        ),
{
    match outcome {
        JobOutcome::Succeeded => {
            let mut actions: Vec<StorageAction> = Vec::new();
            actions.push(StorageAction::FinishWithSuccess);
            assert(action_views(actions@) =~= seq![StorageActionView::FinishWithSuccess]);
            JobPlan { actions, kind: JobResultKind::Success }
        },
        JobOutcome::Failed { error, retry_delay_override } => {
            let delay = effective_retry_delay(retry_delay_override, default_delay);
            JobPlan {
                actions: failure_actions(retries, max_retries, delay, error),
                kind: JobResultKind::Failed,
            }
        },
        JobOutcome::Panicked { message } => JobPlan {
            actions: failure_actions(retries, max_retries, default_delay, message),
            kind: JobResultKind::Panicked,
        },
    }
}

/// A failed job is either retried or killed, never both: it is retried
/// exactly while it has retries left, and killed exactly once it has none.
pub proof fn law_failed_job_retried_or_killed(
    retries: u32,
    max_retries: u32,
    retry_delay: u64,
    error: Seq<char>,
)
    ensures
        ({
            let a = spec_failure_actions(retries, max_retries, retry_delay, error);
            &&& (exists|i: int| 0 <= i < a.len() && a[i] is Kill) <==> retries >= max_retries
            &&& (exists|i: int| 0 <= i < a.len() && a[i] is RetryIn) <==> retries < max_retries
            &&& forall|i: int| 0 <= i < a.len() ==> !(a[i] is FinishWithSuccess)
        }),
{
    let a = spec_failure_actions(retries, max_retries, retry_delay, error);
    if retries < max_retries {
        assert(a[1] is RetryIn);
    } else {
        assert(a[0] is Kill);
    }
}

/// The retry delay of a job that failed with retries left is exactly the
/// application's override when it gives one, whatever the worker's delay,
/// and the worker's delay otherwise; a panic always waits the worker's
/// delay; a job with no retries left is killed with its error; a success is
/// finished.
pub proof fn law_job_plan_delays(
    retries: u32,
    max_retries: u32,
    default_delay: u64,
    error: String,
    message: String,
    d: u64,
)
    ensures
        retries < max_retries ==> spec_plan(
            retries,
            max_retries,
            default_delay,
            JobOutcome::Failed { error, retry_delay_override: Some(d) },
        ) == (
            seq![
                StorageActionView::FinishWithFailure,
                StorageActionView::RetryIn { delay: d, error: error@ },
            ],
            JobResultKind::Failed,
        ),
        retries < max_retries ==> spec_plan(
            retries,
            max_retries,
            default_delay,
            JobOutcome::Failed { error, retry_delay_override: None },
        ) == (
            seq![
                StorageActionView::FinishWithFailure,
                StorageActionView::RetryIn { delay: default_delay, error: error@ },
            ],
            JobResultKind::Failed,
        ),
        retries < max_retries ==> spec_plan(
            retries,
            max_retries,
            default_delay,
            JobOutcome::Panicked { message },
        ) == (
            seq![
                StorageActionView::FinishWithFailure,
                StorageActionView::RetryIn { delay: default_delay, error: message@ },
            ],
            JobResultKind::Panicked,
        ),
        retries >= max_retries ==> spec_plan(
            retries,
            max_retries,
            default_delay,
            JobOutcome::Failed { error, retry_delay_override: Some(d) },
        ) == (seq![StorageActionView::Kill { error: error@ }], JobResultKind::Failed),
        retries >= max_retries ==> spec_plan(
            retries,
            max_retries,
            default_delay,
            JobOutcome::Panicked { message },
        ) == (seq![StorageActionView::Kill { error: message@ }], JobResultKind::Panicked),
        spec_plan(retries, max_retries, default_delay, JobOutcome::Succeeded) == (
            seq![StorageActionView::FinishWithSuccess],
            JobResultKind::Success,
        ),
{
}

/// A job that succeeds is finished and reported as a success; one that
/// fails or panics is never finished as a success, and is reported as
/// failed or panicked.
pub proof fn law_outcome_reported(
    retries: u32,
    max_retries: u32,
    default_delay: u64,
    outcome: JobOutcome,
)
    ensures
        ({
            let (a, kind) = spec_plan(retries, max_retries, default_delay, outcome);
            &&& (kind == JobResultKind::Success) <==> outcome is Succeeded
            &&& (kind == JobResultKind::Panicked) <==> outcome is Panicked
            &&& outcome is Succeeded ==> a == seq![StorageActionView::FinishWithSuccess]
            &&& !(outcome is Succeeded) ==> forall|i: int|
                0 <= i < a.len() ==> !(a[i] is FinishWithSuccess)
        }),
{
}

/// The plan for a batch of jobs after their worker ran.
pub enum BatchPlan {
    /// All jobs are finished together.
    FinishAll,
    /// The actions for each job of the batch, in order.
    PerJob(Vec<Vec<StorageAction>>),
}

/// What came of running a batch worker.
pub enum BatchOutcome {
    Succeeded,
    /// The worker returned an error; the application's retry delay
    /// override for the error, one per job.
    Failed { error: String, retry_delay_overrides: Vec<Option<u64>> },
    Panicked { message: String },
}

/// How the jobs of a batch that ran are reported: as the batch ended.
pub fn batch_outcome_kind(outcome: &BatchOutcome) -> (r: JobResultKind)
    ensures
        r == match outcome {
            BatchOutcome::Succeeded => JobResultKind::Success,
            BatchOutcome::Failed { .. } => JobResultKind::Failed,
            BatchOutcome::Panicked { .. } => JobResultKind::Panicked,
        },
{
    match outcome {
        BatchOutcome::Succeeded => JobResultKind::Success,
        BatchOutcome::Failed { .. } => JobResultKind::Failed,
        BatchOutcome::Panicked { .. } => JobResultKind::Panicked,
    }
}

/// The retry policy of one job of a batch.
#[derive(Debug, Clone, Copy, PartialEq, Eq, Structural)]
pub struct JobExecutionPolicy {
    pub max_retries: u32,
    pub retry_delay: u64,
}

/// The retry delay of job `i` of a failed batch: the application's
/// override for it, when overrides are given and it has one; its policy's
/// delay otherwise.
pub open spec fn spec_batch_delay(
    policies: Seq<JobExecutionPolicy>,
    overrides: Option<Seq<Option<u64>>>,
    i: int,
) -> u64 {
    match overrides {
        Some(o) => match o[i] {
            Some(d) => d,
            None => policies[i].retry_delay,
        },
        None => policies[i].retry_delay,
    }
}

/// The abstract value of optional overrides.
pub open spec fn overrides_view(overrides: Option<&Vec<Option<u64>>>) -> Option<Seq<Option<u64>>> {
    match overrides {
        Some(o) => Some(o@),
        None => None,
    }
}

/// The actions for each job of a batch that failed with `error`.
fn per_job_failure_actions(
    retries: &Vec<u32>,
    policies: &Vec<JobExecutionPolicy>,
    overrides: Option<&Vec<Option<u64>>>,
    error: String,
) -> (r: Vec<Vec<StorageAction>>)
    requires
        retries@.len() == policies@.len(),
        overrides matches Some(o) ==> o@.len() == retries@.len(),
    ensures
        r@.len() == retries@.len(),
        forall|i: int|
            0 <= i < retries@.len() ==> action_views(#[trigger] r@[i]@) == spec_failure_actions(
                retries@[i],
                policies@[i].max_retries,
                spec_batch_delay(policies@, overrides_view(overrides), i),
                error@,
            ),
{
    let mut per_job: Vec<Vec<StorageAction>> = Vec::new();
    let mut i: usize = 0;
    while i < retries.len()
        invariant
            i <= retries@.len(),
            retries@.len() == policies@.len(),
            overrides matches Some(o) ==> o@.len() == retries@.len(),
            per_job@.len() == i,
            forall|j: int|
                0 <= j < i ==> action_views(#[trigger] per_job@[j]@) == spec_failure_actions(
                    retries@[j],
                    policies@[j].max_retries,
                    spec_batch_delay(policies@, overrides_view(overrides), j),
                    error@,
                ),
        decreases retries@.len() - i,
    {
        let policy = policies[i];
        let delay = match overrides {
            Some(o) => effective_retry_delay(o[i], policy.retry_delay),
            None => policy.retry_delay,
        };
        per_job.push(failure_actions(retries[i], policy.max_retries, delay, error.clone()));
        i = i + 1;
    }
    per_job
}

/// Plans what follows a run of a batch: all jobs finish together after a
/// success; after an error or a panic each job is retried or killed by its
/// own retry count and policy, as a single job would be.
pub fn plan_batch(
    retries: &Vec<u32>,
    policies: &Vec<JobExecutionPolicy>,
    outcome: BatchOutcome,
) -> (r: BatchPlan)
    requires
        retries@.len() == policies@.len(),
        outcome matches BatchOutcome::Failed { retry_delay_overrides, .. }
            ==> retry_delay_overrides@.len() == retries@.len(),
    ensures
        outcome is Succeeded ==> r is FinishAll,
        !(outcome is Succeeded) ==> (r matches BatchPlan::PerJob(per_job) && per_job@.len()
            == retries@.len() && forall|i: int|
            0 <= i < retries@.len() ==> action_views(#[trigger] per_job@[i]@) == match outcome {
                BatchOutcome::Failed { error, retry_delay_overrides } => spec_failure_actions(
                    retries@[i],
                    policies@[i].max_retries,
                    match retry_delay_overrides@[i] {
                        Some(d) => d,
                        None => policies@[i].retry_delay,
                    },
                    error@,
                ),
                BatchOutcome::Panicked { message } => spec_failure_actions(
                    retries@[i],
                    policies@[i].max_retries,
                    policies@[i].retry_delay,
                    message@,
                ),
                BatchOutcome::Succeeded => Seq::empty(),
            }),
{
    match outcome {
        BatchOutcome::Succeeded => BatchPlan::FinishAll,
        BatchOutcome::Failed { error, retry_delay_overrides } => BatchPlan::PerJob(
            per_job_failure_actions(retries, policies, Some(&retry_delay_overrides), error),
        ),
        BatchOutcome::Panicked { message } => BatchPlan::PerJob(
            per_job_failure_actions(retries, policies, None, message),
        ),
    }
}

/// The message of the error for a batch whose worker holds a different
/// number of jobs than envelopes were handed over.
pub open spec fn spec_batch_size_mismatch_message(jobs: nat, envelopes: nat) -> Seq<char> {
    "Batch worker has "@ + decimal(jobs) + " jobs but received "@ + decimal(envelopes)
        + " envelopes"@
}

/// Whether a batch can be run: `Ok(false)` when there are no envelopes and
/// nothing is to be done, `Ok(true)` when the worker holds one job per
/// envelope, and an error otherwise.
pub fn check_batch(worker_jobs: usize, envelopes: usize) -> (r: Result<bool, OxanusError>)
    ensures
        envelopes == 0 ==> r == Ok::<bool, OxanusError>(false),
        envelopes != 0 && worker_jobs == envelopes ==> r == Ok::<bool, OxanusError>(true),
        envelopes != 0 && worker_jobs != envelopes ==> (r matches Err(OxanusError::GenericError(m))
            && m@ == spec_batch_size_mismatch_message(worker_jobs as nat, envelopes as nat)),
{
    if envelopes == 0 {
        return Ok(false);
    }
    if worker_jobs != envelopes {
        let mut m = String::from_str("Batch worker has ");
        push_decimal(&mut m, worker_jobs as u64);
        m.append(" jobs but received ");
        push_decimal(&mut m, envelopes as u64);
        m.append(" envelopes");
        return Err(OxanusError::GenericError(m));
    }
    Ok(true)
}

} // verus!
