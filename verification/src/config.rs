//! The configuration of a run: which queues are processed, which workers
//! are registered, and when the run ends.

use vstd::prelude::*;
use crate::error::OxanusError;
use crate::queue::{QueueConfig, QueueConfigView, QueueKindView};
use crate::storage::Storage;
use crate::text::concat3;
use crate::worker_registry::{
    CronJob,
    WorkerBatchConfig,
    WorkerConfig,
    WorkerConfigKind,
    WorkerEntry,
    WorkerRegistry,
    cron_expression_parses,
    cron_parse,
    cron_schedule_parses,
};

verus! {

/// How long, in milliseconds, a run waits for running jobs at shutdown
/// unless configured otherwise: three minutes.
pub const DEFAULT_SHUTDOWN_TIMEOUT_MS: u64 = 180_000;

/// The configuration of a run, for workers whose jobs are built by
/// factories of type `F`.
pub struct Config<F> {
    registry: WorkerRegistry<F>,
    queues: Vec<QueueConfig>,
    exit_when_processed: Option<u64>,
    shutdown_timeout_ms: u64,
    storage: Storage,
}

/// The abstract values of a sequence of queue configurations.
pub open spec fn queue_views(v: Seq<QueueConfig>) -> Seq<QueueConfigView> {
    v.map_values(|q: QueueConfig| q@)
}

/// The cron schedules after registering `name` to run on `queue_key` with
/// the schedule expression `schedule`: the schedule parsed from that
/// expression is recorded under the name, and the others stay as they were.
pub open spec fn cron_registered(
    after: Map<Seq<char>, CronJob>,
    before: Map<Seq<char>, CronJob>,
    name: Seq<char>,
    schedule: Seq<char>,
    queue_key: Seq<char>,
    resurrect: bool,
) -> bool {
    &&& after.contains_key(name)
    &&& cron_parse(schedule) == Some(after[name].schedule)
    &&& after[name].queue_key@ == queue_key
    &&& after[name].resurrect == resurrect
    &&& after.remove(name) == before.remove(name)
}

/// Each cron worker runs on its own schedule: after registering cron worker
/// `a` with expression `sa` and then another cron worker `b` with `sb`,
/// the schedule recorded for `a` is still the one parsed from `sa`, the one
/// for `b` is parsed from `sb`, and each keeps its own queue and flag.
pub proof fn law_cron_workers_keep_own_schedules(
    before: Map<Seq<char>, CronJob>,
    mid: Map<Seq<char>, CronJob>,
    after: Map<Seq<char>, CronJob>,
    a: Seq<char>,
    sa: Seq<char>,
    qa: Seq<char>,
    ra: bool,
    b: Seq<char>,
    sb: Seq<char>,
    qb: Seq<char>,
    rb: bool,
)
    requires
        a != b,
        cron_registered(mid, before, a, sa, qa, ra),
        cron_registered(after, mid, b, sb, qb, rb),
    ensures
        after.contains_key(a) && after.contains_key(b),
        cron_parse(sa) == Some(after[a].schedule),
        cron_parse(sb) == Some(after[b].schedule),
        after[a].queue_key@ == qa && after[a].resurrect == ra,
        after[b].queue_key@ == qb && after[b].resurrect == rb,
{
    assert(after.remove(b).contains_key(a));
    assert(after.remove(b)[a] == after[a]);
    assert(mid.remove(b)[a] == mid[a]);
}

/// The message of the error for a cron worker whose queue is dynamic.
pub open spec fn spec_dynamic_cron_queue_message() -> Seq<char> {
    "Statically defined cron workers can only use static queues"@
}

/// The message of the error for a cron worker without a schedule.
pub open spec fn spec_missing_cron_schedule_message() -> Seq<char> {
    "Cron Worker must have cron_schedule defined"@
}

/// The message of the error for a cron schedule that does not parse.
pub open spec fn spec_invalid_cron_message(name: Seq<char>, schedule: Seq<char>) -> Seq<char> {
    name + ": Invalid cron schedule: "@ + schedule
}

/// Registering a queue that is already registered changes nothing.
pub proof fn law_register_queue_idempotent(queues: Set<QueueConfigView>, q: QueueConfigView)
    ensures
        queues.insert(q).insert(q) == queues.insert(q),
        queues.contains(q) ==> queues.insert(q) == queues,
{
    assert(queues.insert(q).insert(q) =~= queues.insert(q));
    if queues.contains(q) {
        assert(queues.insert(q) =~= queues);
    }
}

impl<F> Config<F> {
    /// The run ends once this many jobs were processed, if set.
    pub closed spec fn exit_limit(&self) -> Option<u64> {
        self.exit_when_processed
    }

    /// How long, in milliseconds, the run waits for running jobs at shutdown.
    pub closed spec fn shutdown_timeout(&self) -> u64 {
        self.shutdown_timeout_ms
    }

    /// The storage of the run.
    pub closed spec fn storage_view(&self) -> Storage {
        self.storage
    }

    /// The registered queues.
    pub closed spec fn queue_set(&self) -> Set<QueueConfigView> {
        queue_views(self.queues@).to_set()
    }

    /// The registered workers, by name.
    pub closed spec fn workers(&self) -> Map<Seq<char>, WorkerEntry<F>> {
        self.registry.workers()
    }

    /// The cron schedules, by worker name.
    pub closed spec fn cron_jobs(&self) -> Map<Seq<char>, CronJob> {
        self.registry.cron_jobs()
    }

    /// The configuration's internal invariant: each queue is registered once.
    pub closed spec fn wf(&self) -> bool {
        &&& self.registry.wf()
        &&& queue_views(self.queues@).no_duplicates()
    }

    /// A configuration for `storage` with no queues and no workers, no
    /// limit on processed jobs and the default shutdown timeout.
    pub fn new(storage: &Storage) -> (c: Self)
        ensures
            c.wf(),
            c.queue_set() == Set::<QueueConfigView>::empty(),
            c.workers() == Map::<Seq<char>, WorkerEntry<F>>::empty(),
            c.cron_jobs() == Map::<Seq<char>, CronJob>::empty(),
            c.exit_limit() is None,
            c.shutdown_timeout() == DEFAULT_SHUTDOWN_TIMEOUT_MS,
            c.storage_view().namespace_view() == storage.namespace_view(),
    {
        let c = Config {
            registry: WorkerRegistry::new(),
            queues: Vec::new(),
            exit_when_processed: None,
            shutdown_timeout_ms: DEFAULT_SHUTDOWN_TIMEOUT_MS,
            storage: storage.clone(),
        };
        assert(queue_views(c.queues@) =~= Seq::<QueueConfigView>::empty());
        assert(c.queue_set() =~= Set::<QueueConfigView>::empty());
        c
    }

    /// Registers a queue; a queue registered twice is kept once.
    pub fn register_queue_with(&mut self, config: QueueConfig)
        requires
            old(self).wf(),
        ensures
            final(self).wf(),
            final(self).queue_set() == old(self).queue_set().insert(config@),
            final(self).workers() == old(self).workers(),
            final(self).cron_jobs() == old(self).cron_jobs(),
            final(self).exit_limit() == old(self).exit_limit(),
            final(self).shutdown_timeout() == old(self).shutdown_timeout(),
            final(self).storage_view() == old(self).storage_view(),
    {
        if !self.has_registered_queue_config(&config) {
            let ghost before = queue_views(self.queues@);
            let ghost c = config@;
            self.queues.push(config);
            assert(queue_views(self.queues@) =~= before.push(c));
            assert(!before.contains(c));
            assert(queue_views(self.queues@).to_set() =~= before.to_set().insert(c)) by {
                assert forall|q: QueueConfigView| #[trigger] before.push(c).to_set().contains(q) <==> before.to_set().insert(c).contains(q) by {
                    if before.push(c).contains(q) && q != c {
                        let w = choose|w: int| 0 <= w < before.push(c).len() && before.push(c)[w] == q;
                        assert(before[w] == q);
                    }
                    if before.contains(q) {
                        let w = choose|w: int| 0 <= w < before.len() && before[w] == q;
                        assert(before.push(c)[w] == q);
                    }
                    if q == c {
                        assert(before.push(c)[before.len() as int] == c);
                    }
                }
            }
            assert forall|a: int, b: int|
                0 <= a < before.push(c).len() && 0 <= b < before.push(c).len() && a != b implies before.push(c)[a]
                != before.push(c)[b] by {
                if a == before.len() {
                    assert(before.contains(before[b]));
                } else if b == before.len() {
                    assert(before.contains(before[a]));
                }
            }
        } else {
            assert(self.queue_set() =~= old(self).queue_set().insert(config@));
        }
    }

    /// Registers a queue with its concurrency replaced by `concurrency`.
    pub fn register_queue_with_concurrency(&mut self, config: QueueConfig, concurrency: usize)
        requires
            old(self).wf(),
        ensures
            final(self).wf(),
            final(self).queue_set() == old(self).queue_set().insert(
                QueueConfigView { concurrency, ..config@ },
            ),
            final(self).workers() == old(self).workers(),
            final(self).cron_jobs() == old(self).cron_jobs(),
            final(self).exit_limit() == old(self).exit_limit(),
            final(self).shutdown_timeout() == old(self).shutdown_timeout(),
            final(self).storage_view() == old(self).storage_view(),
    {
        let mut config = config;
        config.concurrency = concurrency;
        self.register_queue_with(config);
    }

    /// Whether the queue is registered.
    pub fn has_registered_queue_config(&self, config: &QueueConfig) -> (r: bool)
        ensures
            r == self.queue_set().contains(config@),
    {
        let mut i: usize = 0;
        while i < self.queues.len()
            invariant
                i <= self.queues@.len(),
                forall|j: int| 0 <= j < i ==> queue_views(self.queues@)[j] != config@,
            decreases self.queues@.len() - i,
        {
            if self.queues[i].same_as(config) {
                assert(queue_views(self.queues@)[i as int] == config@);
                return true;
            }
            i = i + 1;
        }
        proof {
            if queue_views(self.queues@).contains(config@) {
                let w = choose|w: int| 0 <= w < queue_views(self.queues@).len() && queue_views(self.queues@)[w] == config@;
            }
        }
        false
    }

    /// Registers a worker as the registry does.
    pub fn register_worker_with(&mut self, config: WorkerConfig<F>)
        requires
            old(self).wf(),
            config.kind matches WorkerConfigKind::Cron { schedule, .. } ==> cron_expression_parses(
                schedule@,
            ),
        ensures
            final(self).wf(),
            final(self).workers() == old(self).workers().insert(
                config.name@,
                WorkerEntry { factory: config.factory, batch_config: config.batch_config },
            ),
            match config.kind {
                WorkerConfigKind::Normal => final(self).cron_jobs() == old(self).cron_jobs(),
                WorkerConfigKind::Cron { schedule, queue_key, resurrect } => cron_registered(
                    final(self).cron_jobs(),
                    old(self).cron_jobs(),
                    config.name@,
                    schedule@,
                    queue_key@,
                    resurrect,
                ),
            },
            final(self).queue_set() == old(self).queue_set(),
            final(self).exit_limit() == old(self).exit_limit(),
            final(self).shutdown_timeout() == old(self).shutdown_timeout(),
            final(self).storage_view() == old(self).storage_view(),
    {
        self.registry.register_worker_with(config);
    }

    /// Registers a worker as the registry does, or leaves the configuration
    /// unchanged and returns an error when the worker's cron schedule does
    /// not parse.
    pub fn try_register_worker_with(&mut self, config: WorkerConfig<F>) -> (r: Result<
        (),
        OxanusError,
    >)
        requires
            old(self).wf(),
        ensures
            final(self).wf(),
            match config.kind {
                WorkerConfigKind::Cron { schedule, .. } => r is Err <==> !cron_expression_parses(
                    schedule@,
                ),
                WorkerConfigKind::Normal => r is Ok,
            },
            r is Err ==> final(self).workers() == old(self).workers() && final(self).cron_jobs()
                == old(self).cron_jobs(),
            r matches Err(e) ==> config.kind matches WorkerConfigKind::Cron { schedule, .. } && (
            e matches OxanusError::GenericError(m) && m@ == spec_invalid_cron_message(
                config.name@,
                schedule@,
            )),
            r is Ok ==> final(self).workers() == old(self).workers().insert(
                config.name@,
                WorkerEntry { factory: config.factory, batch_config: config.batch_config },
            ),
            r is Ok ==> match config.kind {
                WorkerConfigKind::Normal => final(self).cron_jobs() == old(self).cron_jobs(),
                WorkerConfigKind::Cron { schedule, queue_key, resurrect } => cron_registered(
                    final(self).cron_jobs(),
                    old(self).cron_jobs(),
                    config.name@,
                    schedule@,
                    queue_key@,
                    resurrect,
                ),
            },
            final(self).queue_set() == old(self).queue_set(),
            final(self).exit_limit() == old(self).exit_limit(),
            final(self).shutdown_timeout() == old(self).shutdown_timeout(),
            final(self).storage_view() == old(self).storage_view(),
    {
        let invalid = match &config.kind {
            WorkerConfigKind::Cron { schedule, .. } => {
                if cron_schedule_parses(schedule.as_str()) {
                    None
                } else {
                    Some(concat3(config.name.as_str(), ": Invalid cron schedule: ", schedule.as_str()))
                }
            },
            WorkerConfigKind::Normal => None,
        };
        match invalid {
            Some(message) => Err(OxanusError::GenericError(message)),
            None => {
                self.register_worker_with(config);
                Ok(())
            },
        }
    }

    /// Registers the worker `name`. A worker with a cron schedule and a
    /// queue for its runs is registered as a cron worker on that queue,
    /// which is registered too; any other worker is registered as a normal
    /// worker. A cron worker's queue must be static and its schedule must
    /// parse.
    pub fn register_worker(
        self,
        name: String,
        factory: F,
        batch_config: Option<WorkerBatchConfig>,
        cron_schedule: Option<String>,
        cron_queue: Option<QueueConfig>,
        resurrect: bool,
    ) -> (c: Self)
        requires
            self.wf(),
            (cron_schedule, cron_queue) matches (Some(s), Some(q)) ==> (q.kind@ is Static
                && cron_expression_parses(s@)),
        ensures
            c.wf(),
            c.workers() == self.workers().insert(name@, WorkerEntry { factory, batch_config }),
            match (cron_schedule, cron_queue) {
                (Some(s), Some(q)) => match q.kind@ {
                    QueueKindView::Static { key } => {
                        &&& c.queue_set() == self.queue_set().insert(q@)
                        &&& cron_registered(c.cron_jobs(), self.cron_jobs(), name@, s@, key, resurrect)
                    },
                    QueueKindView::Dynamic { .. } => false,
                },
                _ => c.queue_set() == self.queue_set() && c.cron_jobs() == self.cron_jobs(),
            },
            c.exit_limit() == self.exit_limit(),
            c.shutdown_timeout() == self.shutdown_timeout(),
            c.storage_view() == self.storage_view(),
    {
        let mut c = self;
        match (cron_schedule, cron_queue) {
            (Some(schedule), Some(queue_config)) => {
                let queue_key = queue_config.static_key().unwrap();
                let config = WorkerConfig {
                    name,
                    factory,
                    batch_config,
                    kind: WorkerConfigKind::Cron { schedule, queue_key, resurrect },
                };
                c.register_worker_with(config);
                c.register_queue_with(queue_config);
                c
            },
            _ => {
                c.register_worker_with(
                    WorkerConfig { name, factory, batch_config, kind: WorkerConfigKind::Normal },
                );
                c
            },
        }
    }

    /// Registers the cron worker `name` to run on the queue with key
    /// `queue_key`, whose configuration is registered too. The worker must
    /// have a schedule, and it must parse.
    pub fn register_cron_worker(
        self,
        name: String,
        factory: F,
        batch_config: Option<WorkerBatchConfig>,
        queue_config: QueueConfig,
        queue_key: String,
        cron_schedule: Option<String>,
        resurrect: bool,
    ) -> (c: Self)
        requires
            self.wf(),
            cron_schedule matches Some(s) && cron_expression_parses(s@),
        ensures
            c.wf(),
            c.queue_set() == self.queue_set().insert(queue_config@),
            c.workers() == self.workers().insert(name@, WorkerEntry { factory, batch_config }),
            cron_registered(
                c.cron_jobs(),
                self.cron_jobs(),
                name@,
                cron_schedule->0@,
                queue_key@,
                resurrect,
            ),
            c.exit_limit() == self.exit_limit(),
            c.shutdown_timeout() == self.shutdown_timeout(),
            c.storage_view() == self.storage_view(),
    {
        let mut c = self;
        let schedule = cron_schedule.unwrap();
        let config = WorkerConfig {
            name,
            factory,
            batch_config,
            kind: WorkerConfigKind::Cron { schedule, queue_key, resurrect },
        };
        c.register_worker_with(config);
        c.register_queue_with(queue_config);
        c
    }

    /// Registers the worker `name` as [`Self::register_worker`] does; for a
    /// cron worker whose queue is dynamic or whose schedule does not parse,
    /// returns an error that says which is wrong instead.
    pub fn try_register_worker(
        self,
        name: String,
        factory: F,
        batch_config: Option<WorkerBatchConfig>,
        cron_schedule: Option<String>,
        cron_queue: Option<QueueConfig>,
        resurrect: bool,
    ) -> (r: Result<Self, OxanusError>)
        requires
            self.wf(),
        ensures
            ({
                let entry = WorkerEntry { factory, batch_config };
                match (cron_schedule, cron_queue) {
                    (Some(s), Some(q)) => match q.kind@ {
                        QueueKindView::Dynamic { .. } => r matches Err(
                            OxanusError::GenericError(m),
                        ) && m@ == spec_dynamic_cron_queue_message(),
                        QueueKindView::Static { key } => if !cron_expression_parses(s@) {
                            r matches Err(OxanusError::GenericError(m)) && m@
                                == spec_invalid_cron_message(name@, s@)
                        } else {
                            r matches Ok(c) && c.wf() && c.queue_set() == self.queue_set().insert(
                                q@,
                            ) && c.workers() == self.workers().insert(name@, entry)
                                && cron_registered(
                                c.cron_jobs(),
                                self.cron_jobs(),
                                name@,
                                s@,
                                key,
                                resurrect,
                            ) && c.exit_limit() == self.exit_limit()
                                && c.shutdown_timeout() == self.shutdown_timeout() && c.storage_view()
                                == self.storage_view()
                        },
                    },
                    _ => r matches Ok(c) && c.wf() && c.queue_set() == self.queue_set()
                        && c.workers() == self.workers().insert(name@, entry) && c.cron_jobs()
                        == self.cron_jobs() && c.exit_limit() == self.exit_limit()
                        && c.shutdown_timeout() == self.shutdown_timeout() && c.storage_view()
                        == self.storage_view(),
                }
            }),
    {
        match (&cron_schedule, &cron_queue) {
            (Some(schedule), Some(queue_config)) => {
                if queue_config.static_key().is_none() {
                    return Err(
                        OxanusError::GenericError(
                            String::from_str(
                                "Statically defined cron workers can only use static queues",
                            ),
                        ),
                    );
                }
                if !cron_schedule_parses(schedule.as_str()) {
                    return Err(
                        OxanusError::GenericError(
                            concat3(name.as_str(), ": Invalid cron schedule: ", schedule.as_str()),
                        ),
                    );
                }
            },
            _ => {},
        }
        Ok(self.register_worker(name, factory, batch_config, cron_schedule, cron_queue, resurrect))
    }

    /// Registers the cron worker `name` to run on the queue with key
    /// `queue_key`, whose configuration is registered too. The worker must
    /// have a schedule, and it must parse, else an error says which is
    /// wrong.
    pub fn try_register_cron_worker(
        self,
        name: String,
        factory: F,
        batch_config: Option<WorkerBatchConfig>,
        queue_config: QueueConfig,
        queue_key: String,
        cron_schedule: Option<String>,
        resurrect: bool,
    ) -> (r: Result<Self, OxanusError>)
        requires
            self.wf(),
        ensures
            ({
                let entry = WorkerEntry { factory, batch_config };
                match cron_schedule {
                    None => r matches Err(OxanusError::GenericError(m)) && m@
                        == spec_missing_cron_schedule_message(),
                    Some(s) => if !cron_expression_parses(s@) {
                        r matches Err(OxanusError::GenericError(m)) && m@ == spec_invalid_cron_message(
                            name@,
                            s@,
                        )
                    } else {
                        r matches Ok(c) && c.wf() && c.queue_set() == self.queue_set().insert(
                            queue_config@,
                        ) && c.workers() == self.workers().insert(name@, entry) && cron_registered(
                            c.cron_jobs(),
                            self.cron_jobs(),
                            name@,
                            s@,
                            queue_key@,
                            resurrect,
                        ) && c.exit_limit() == self.exit_limit()
                            && c.shutdown_timeout() == self.shutdown_timeout() && c.storage_view()
                            == self.storage_view()
                    },
                }
            }),
    {
        match &cron_schedule {
            None => {
                return Err(
                    OxanusError::GenericError(
                        String::from_str("Cron Worker must have cron_schedule defined"),
                    ),
                );
            },
            Some(schedule) => {
                if !cron_schedule_parses(schedule.as_str()) {
                    return Err(
                        OxanusError::GenericError(
                            concat3(name.as_str(), ": Invalid cron schedule: ", schedule.as_str()),
                        ),
                    );
                }
            },
        }
        Ok(
            self.register_cron_worker(
                name,
                factory,
                batch_config,
                queue_config,
                queue_key,
                cron_schedule,
                resurrect,
            ),
        )
    }

    /// Ends the run once `processed` jobs were processed.
    pub fn exit_when_processed(self, processed: u64) -> (c: Self)
        ensures
            c.exit_limit() == Some(processed),
            c.wf() == self.wf(),
            c.queue_set() == self.queue_set(),
            c.workers() == self.workers(),
            c.cron_jobs() == self.cron_jobs(),
            c.shutdown_timeout() == self.shutdown_timeout(),
            c.storage_view() == self.storage_view(),
    {
        Config { exit_when_processed: Some(processed), ..self }
    }

    /// Whether a worker is registered under `name`.
    pub fn has_registered_worker(&self, name: &str) -> (r: bool)
        requires
            self.wf(),
        ensures
            r == self.workers().contains_key(name@),
    {
        self.registry.has_registered(name)
    }

    /// Whether a cron worker is registered under `name`.
    pub fn has_registered_cron_worker(&self, name: &str) -> (r: bool)
        requires
            self.wf(),
        ensures
            r == self.cron_jobs().contains_key(name@),
    {
        self.registry.has_registered_cron(name)
    }

    /// The limit on processed jobs after which the run ends, if set.
    pub fn exit_when_processed_limit(&self) -> (r: Option<u64>)
        ensures
            r == self.exit_limit(),
    {
        self.exit_when_processed
    }

    /// How long, in milliseconds, the run waits for running jobs at shutdown.
    pub fn shutdown_timeout_ms(&self) -> (r: u64)
        ensures
            r == self.shutdown_timeout(),
    {
        self.shutdown_timeout_ms
    }

    /// The storage of the run.
    pub fn storage(&self) -> (r: &Storage)
        ensures
            *r == self.storage_view(),
    {
        &self.storage
    }

    /// The registry of workers.
    pub fn registry(&self) -> (r: &WorkerRegistry<F>)
        requires
            self.wf(),
        ensures
            r.wf(),
            r.workers() == self.workers(),
            r.cron_jobs() == self.cron_jobs(),
    {
        &self.registry
    }

    /// The registered queues, each once.
    pub fn queues(&self) -> (r: &Vec<QueueConfig>)
        requires
            self.wf(),
        ensures
            queue_views(r@).no_duplicates(),
            queue_views(r@).to_set() == self.queue_set(),
    {
        &self.queues
    }
}

} // verus!
