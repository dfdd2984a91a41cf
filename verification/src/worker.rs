//! Workers: the retry policy, uniqueness and scheduling of the jobs they run.

use vstd::prelude::*;
use crate::job_envelope::JobConflictStrategy;
use crate::queue::{QueueConfig, QueueKindView};
use crate::worker_registry::WorkerConfigKind;

verus! {

/// How often a failed job is retried unless its worker says otherwise.
pub const DEFAULT_MAX_RETRIES: u32 = 2;

/// The largest retry count for which the default backoff, `5^(retries + 2)`
/// seconds, fits in a `u64`.
pub const MAX_BACKOFF_RETRIES: u32 = 25;

/// Five to the power `e`.
pub open spec fn pow5(e: nat) -> nat
    decreases e,
{
    if e == 0 {
        1
    } else {
        5 * pow5((e - 1) as nat)
    }
}

/// The default delay, in seconds, before retry number `retries + 1`:
/// 25, 125, 625, ... seconds, five times longer after each retry.
pub open spec fn spec_default_retry_delay(retries: nat) -> nat {
    pow5(retries + 2)
}

proof fn lemma_pow5_monotone(a: nat, b: nat)
    requires
        a <= b,
    ensures
        pow5(a) <= pow5(b),
    decreases b - a,
{
    if a < b {
        lemma_pow5_monotone(a, (b - 1) as nat);
    }
}

proof fn lemma_pow5_27()
    ensures
        pow5(27) == 7_450_580_596_923_828_125,
{
    reveal_with_fuel(pow5, 28);
}

/// The default backoff: `5^(retries + 2)` seconds.
pub fn default_retry_delay(retries: u32) -> (d: u64)
    requires
        retries <= MAX_BACKOFF_RETRIES,
    ensures
        d == spec_default_retry_delay(retries as nat),
{
    let exponent = retries + 2;
    let mut d: u64 = 1;
    let mut i: u32 = 0;
    while i < exponent
        invariant
            i <= exponent,
            exponent == retries + 2,
            retries <= MAX_BACKOFF_RETRIES,
            d == pow5(i as nat),
        decreases exponent - i,
    {
        proof {
            lemma_pow5_monotone((i + 1) as nat, 27);
            lemma_pow5_27();
        }
        d = d * 5;
        i = i + 1;
    }
    d
}

/// Each retry waits five times longer than the one before.
pub proof fn law_default_backoff_grows_fivefold(retries: nat)
    ensures
        spec_default_retry_delay(retries + 1) == 5 * spec_default_retry_delay(retries),
{
}

/// The kind of registration a worker asks for: a cron worker when it has a
/// schedule and a static queue to run on, a normal worker otherwise.
pub open spec fn spec_worker_config_kind(
    schedule: Option<Seq<char>>,
    queue: Option<QueueKindView>,
    resurrect: bool,
) -> Option<(Seq<char>, Seq<char>, bool)> {
    match (schedule, queue) {
        (Some(s), Some(QueueKindView::Static { key })) => Some((s, key, resurrect)),
        _ => None,
    }
}

/// The abstract value of a [`WorkerConfigKind`]: the schedule, queue key and
/// resurrection flag of a cron worker, `None` for a normal worker.
pub open spec fn config_kind_view(k: WorkerConfigKind) -> Option<(Seq<char>, Seq<char>, bool)> {
    match k {
        WorkerConfigKind::Normal => None,
        WorkerConfigKind::Cron { schedule, queue_key, resurrect } => Some(
            (schedule@, queue_key@, resurrect),
        ),
    }
}

/// The abstract value of an optional string.
pub open spec fn opt_string_view(s: Option<String>) -> Option<Seq<char>> {
    match s {
        Some(s) => Some(s@),
        None => None,
    }
}

/// The abstract value of the kind of an optional queue configuration.
pub open spec fn opt_queue_kind_view(q: Option<QueueConfig>) -> Option<QueueKindView> {
    match q {
        Some(q) => Some(q.kind@),
        None => None,
    }
}

/// Decides how a worker is registered from its cron schedule, the queue its
/// cron runs go to and whether its jobs are resurrected.
pub fn worker_config_kind(
    schedule: Option<String>,
    queue_config: Option<QueueConfig>,
    resurrect: bool,
) -> (k: WorkerConfigKind)
    ensures
        config_kind_view(k) == spec_worker_config_kind(
            match schedule {
                Some(s) => Some(s@),
                None => None,
            },
            match queue_config {
                Some(q) => Some(q.kind@),
                None => None,
            },
            resurrect,
        ),
{
    match (schedule, queue_config) {
        (Some(schedule), Some(queue_config)) => match queue_config.static_key() {
            Some(queue_key) => WorkerConfigKind::Cron { schedule, queue_key, resurrect },
            None => WorkerConfigKind::Normal,
        },
        _ => WorkerConfigKind::Normal,
    }
}

/// A worker: it runs the jobs of one kind. Its methods give the retry
/// policy, uniqueness and scheduling of those jobs.
pub trait Worker {
    /// How often a failed job is retried before it is declared dead.
    fn max_retries(&self) -> (r: u32)
        default_ensures
            r == DEFAULT_MAX_RETRIES,
    {
        DEFAULT_MAX_RETRIES
    }

    /// The delay, in seconds, before the job is retried after it failed
    /// `retries` times already.
    fn retry_delay(&self, retries: u32) -> (d: u64)
        requires
            retries <= MAX_BACKOFF_RETRIES,
        default_ensures
            d == spec_default_retry_delay(retries as nat),
    {
        default_retry_delay(retries)
    }

    /// The id under which the job is unique, if it is.
    fn unique_id(&self) -> (r: Option<String>)
        default_ensures
            r is None,
    {
        None
    }

    /// What happens when a unique job with the same id is already stored.
    fn on_conflict(&self) -> (r: JobConflictStrategy)
        default_ensures
            r == JobConflictStrategy::Skip,
    {
        JobConflictStrategy::Skip
    }

    /// Whether the worker's jobs are resurrected after a worker crash.
    fn should_resurrect() -> (r: bool) where Self: Sized
        default_ensures
            r,
    {
        true
    }

    /// The 6 part cron schedule of a periodic worker: "* * * * * *".
    fn cron_schedule() -> (r: Option<String>) where Self: Sized
        default_ensures
            r is None,
    {
        None
    }

    /// The queue that the runs of a periodic worker go to.
    fn cron_queue_config() -> (r: Option<QueueConfig>) where Self: Sized
        default_ensures
            r is None,
    {
        None
    }

    /// How the worker is registered: as [`worker_config_kind`] decides from
    /// the worker's cron schedule, cron queue and resurrection flag.
    fn to_config() -> (k: WorkerConfigKind) where Self: Sized
        default_ensures
            exists|s: Option<String>, q: Option<QueueConfig>, res: bool|
                #![trigger call_ensures(Self::cron_schedule, (), s), call_ensures(Self::cron_queue_config, (), q), call_ensures(Self::should_resurrect, (), res)]
                {
                    &&& call_ensures(Self::cron_schedule, (), s)
                    &&& call_ensures(Self::cron_queue_config, (), q)
                    &&& call_ensures(Self::should_resurrect, (), res)
                    &&& config_kind_view(k) == spec_worker_config_kind(
                        opt_string_view(s),
                        opt_queue_kind_view(q),
                        res,
                    )
                },
    {
        let schedule_of = Self::cron_schedule;
        let queue_of = Self::cron_queue_config;
        let resurrect_of = Self::should_resurrect;
        let s = schedule_of();
        let q = queue_of();
        let res = resurrect_of();
        worker_config_kind(s, q, res)
    }
}

} // verus!
