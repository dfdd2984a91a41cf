//! The registry of workers: how jobs are matched to the worker that builds
//! and runs them, and which workers run on a cron schedule.

use vstd::prelude::*;
use crate::error::OxanusError;
use crate::named_map::{NamedMap, string_views};
use crate::text::{concat3, concat4};

verus! {

/// A parsed cron schedule of the `cron` crate.
#[verifier::external_type_specification]
#[verifier::external_body]
pub struct ExCronSchedule(cron::Schedule);

/// `cron::Schedule` derives `Clone`, which clones its source text and its
/// parsed fields one by one: the copy is the same value.
pub assume_specification[ <cron::Schedule as Clone>::clone ](s: &cron::Schedule) -> (r: cron::Schedule)
    ensures
        r == *s,
;

/// The parse error of the `cron` crate.
#[verifier::external_type_specification]
#[verifier::external_body]
pub struct ExCronError(cron::error::Error);

/// The schedule that the `cron` crate parses from `expr`; `None` when `expr`
/// is not a schedule expression.
pub uninterp spec fn cron_parse(expr: Seq<char>) -> Option<cron::Schedule>;

/// Whether the `cron` crate accepts `expr` as a schedule expression.
pub open spec fn cron_expression_parses(expr: Seq<char>) -> bool {
    cron_parse(expr) is Some
}

/// Calls `cron::Schedule::from_str`, which parses a cron expression and
/// returns an error when the expression is not one. The parse depends on
/// the text alone (no clock, locale or environment), so the schedule it
/// gives is named `cron_parse` of the text.
#[verifier::external_body]
fn parse_cron_schedule(expr: &str) -> (r: Result<cron::Schedule, cron::error::Error>)
    ensures
        r is Ok <==> cron_expression_parses(expr@),
        r matches Ok(schedule) ==> cron_parse(expr@) == Some(schedule),
{
    <cron::Schedule as std::str::FromStr>::from_str(expr)
}

/// Whether `expr` is a cron schedule expression that the `cron` crate
/// accepts.
pub fn cron_schedule_parses(expr: &str) -> (r: bool)
    ensures
        r == cron_expression_parses(expr@),
{
    parse_cron_schedule(expr).is_ok()
}

/// How a worker processes jobs in batches.
#[derive(Debug, Clone, Copy, PartialEq, Eq, Structural)]
pub struct WorkerBatchConfig {
    /// How many jobs make a full batch.
    pub batch_size: usize,
    /// How long, in milliseconds, a partial batch waits for more jobs.
    pub batch_linger_ms: u64,
}

/// Whether a worker is registered for jobs that are enqueued or also runs
/// on a cron schedule.
#[derive(Debug)]
pub enum WorkerConfigKind {
    Normal,
    Cron { schedule: String, queue_key: String, resurrect: bool },
}

/// A worker that runs on a cron schedule.
#[derive(Debug)]
pub struct CronJob {
    pub schedule: cron::Schedule,
    pub queue_key: String,
    pub resurrect: bool,
}

/// A worker to register: its name, how to build its jobs, how it batches
/// and whether it runs on a cron schedule.
pub struct WorkerConfig<F> {
    pub name: String,
    pub factory: F,
    pub batch_config: Option<WorkerBatchConfig>,
    pub kind: WorkerConfigKind,
}

/// What the registry keeps of a registered worker.
pub struct WorkerEntry<F> {
    pub factory: F,
    pub batch_config: Option<WorkerBatchConfig>,
}

/// A job of a batch whose arguments could not be read.
#[derive(Debug)]
pub struct InvalidBatchJob {
    /// The position of the job in the batch.
    pub index: usize,
    /// Why its arguments could not be read.
    pub error: String,
}

/// The result of building a batch: the job that processes the valid
/// arguments, if there are any, and the jobs that were invalid.
pub struct BatchBuild<P> {
    pub job: Option<P>,
    pub invalid: Vec<InvalidBatchJob>,
}

/// The registry of workers, by name, and of the cron schedules of the
/// periodic ones.
pub struct WorkerRegistry<F> {
    jobs: NamedMap<WorkerEntry<F>>,
    schedules: NamedMap<CronJob>,
}

/// The message of the error for a job whose worker is not registered.
pub open spec fn spec_not_registered_message(name: Seq<char>) -> Seq<char> {
    seq!['J', 'o', 'b', ' ', 't', 'y', 'p', 'e', ' '] + name + seq![
        ' ',
        'n',
        'o',
        't',
        ' ',
        'r',
        'e',
        'g',
        'i',
        's',
        't',
        'e',
        'r',
        'e',
        'd',
    ]
}

/// The error reported when the worker of a job failed to build it.
pub fn job_build_failure(name: &str, detail: &str) -> (e: OxanusError)
    ensures
        e matches OxanusError::JobFactoryError(m) && m@ == "Failed to build job "@ + name@
            + ": "@ + detail@,
{
    OxanusError::JobFactoryError(concat4("Failed to build job ", name, ": ", detail))
}

/// The error reported when the worker of a batch failed to build it.
pub fn job_batch_build_failure(name: &str, detail: &str) -> (e: OxanusError)
    ensures
        e matches OxanusError::JobFactoryError(m) && m@ == "Failed to build job batch "@ + name@
            + ": "@ + detail@,
{
    OxanusError::JobFactoryError(concat4("Failed to build job batch ", name, ": ", detail))
}

impl<F> WorkerRegistry<F> {
    /// The registered workers, by name.
    pub closed spec fn workers(&self) -> Map<Seq<char>, WorkerEntry<F>> {
        self.jobs@
    }

    /// The cron schedules, by worker name.
    pub closed spec fn cron_jobs(&self) -> Map<Seq<char>, CronJob> {
        self.schedules@
    }

    /// The registry's internal invariant.
    pub closed spec fn wf(&self) -> bool {
        self.jobs.wf() && self.schedules.wf()
    }

    /// An empty registry.
    pub fn new() -> (r: Self)
        ensures
            r.wf(),
            r.workers() == Map::<Seq<char>, WorkerEntry<F>>::empty(),
            r.cron_jobs() == Map::<Seq<char>, CronJob>::empty(),
    {
        WorkerRegistry { jobs: NamedMap::new(), schedules: NamedMap::new() }
    }

    /// Registers a worker; a cron worker's schedule is parsed and recorded
    /// under the worker's name. A worker registered again under the same
    /// name replaces the earlier one.
    pub fn register_worker_with(&mut self, config: WorkerConfig<F>)
        requires
            old(self).wf(),
            config.kind matches WorkerConfigKind::Cron { schedule, .. } ==> cron_expression_parses(
                schedule@,
            ),
        ensures
            final(self).wf(),
            final(self).workers() == old(self).workers().insert(
                config.name@,
                WorkerEntry { factory: config.factory, batch_config: config.batch_config },
            ),
            match config.kind {
                WorkerConfigKind::Normal => final(self).cron_jobs() == old(self).cron_jobs(),
                WorkerConfigKind::Cron { schedule, queue_key, resurrect } => {
                    &&& final(self).cron_jobs().contains_key(config.name@)
                    &&& final(self).cron_jobs()[config.name@].queue_key == queue_key
                    &&& final(self).cron_jobs()[config.name@].resurrect == resurrect
                    &&& cron_parse(schedule@) == Some(final(self).cron_jobs()[config.name@].schedule)
                    &&& final(self).cron_jobs().remove(config.name@) == old(self).cron_jobs().remove(
                        config.name@,
                    )
                },
            },
    {
        let WorkerConfig { name, factory, batch_config, kind } = config;
        match kind {
            WorkerConfigKind::Normal => {
                self.jobs.insert(name, WorkerEntry { factory, batch_config });
            },
            WorkerConfigKind::Cron { schedule, queue_key, resurrect } => {
                if let Ok(parsed) = parse_cron_schedule(schedule.as_str()) {
                    self.jobs.insert(name.clone(), WorkerEntry { factory, batch_config });
                    self.schedules.insert(name, CronJob { schedule: parsed, queue_key, resurrect });
                    assert(self.schedules@.remove(config.name@) =~= old(self).schedules@.remove(
                        config.name@,
                    ));
                }
            },
        }
    }

    /// Registers a worker as [`Self::register_worker_with`] does, unless it
    /// is a cron worker whose schedule does not parse: then the registry is
    /// left unchanged and an error names the worker and the schedule.
    pub fn try_register_worker_with(&mut self, config: WorkerConfig<F>) -> (r: Result<
        (),
        OxanusError,
    >)
        requires
            old(self).wf(),
        ensures
            final(self).wf(),
            match config.kind {
                WorkerConfigKind::Cron { schedule, .. } => r is Err <==> !cron_expression_parses(
                    schedule@,
                ),
                WorkerConfigKind::Normal => r is Ok,
            },
            r matches Err(e) ==> {
                &&& final(self).workers() == old(self).workers()
                &&& final(self).cron_jobs() == old(self).cron_jobs()
                &&& config.kind matches WorkerConfigKind::Cron { schedule, .. }
                &&& e matches OxanusError::GenericError(m) && m@ == config.name@
                    + ": Invalid cron schedule: "@ + schedule@
            },
            r is Ok ==> final(self).workers() == old(self).workers().insert(
                config.name@,
                WorkerEntry { factory: config.factory, batch_config: config.batch_config },
            ),
            r is Ok ==> match config.kind {
                WorkerConfigKind::Normal => final(self).cron_jobs() == old(self).cron_jobs(),
                WorkerConfigKind::Cron { schedule, queue_key, resurrect } => {
                    &&& final(self).cron_jobs().contains_key(config.name@)
                    &&& final(self).cron_jobs()[config.name@].queue_key == queue_key
                    &&& final(self).cron_jobs()[config.name@].resurrect == resurrect
                    &&& cron_parse(schedule@) == Some(final(self).cron_jobs()[config.name@].schedule)
                    &&& final(self).cron_jobs().remove(config.name@) == old(self).cron_jobs().remove(
                        config.name@,
                    )
                },
            },
    {
        let invalid = match &config.kind {
            WorkerConfigKind::Cron { schedule, .. } => {
                if parse_cron_schedule(schedule.as_str()).is_err() {
                    Some(
                        concat3(config.name.as_str(), ": Invalid cron schedule: ", schedule.as_str()),
                    )
                } else {
                    None
                }
            },
            WorkerConfigKind::Normal => None,
        };
        match invalid {
            Some(message) => Err(OxanusError::GenericError(message)),
            None => {
                self.register_worker_with(config);
                Ok(())
            },
        }
    }

    /// The names of the registered workers, each once.
    pub fn worker_names(&self) -> (r: Vec<String>)
        requires
            self.wf(),
        ensures
            string_views(r@).no_duplicates(),
            forall|k: Seq<char>| #[trigger]
                self.workers().contains_key(k) <==> string_views(r@).contains(k),
    {
        proof {
            self.jobs.lemma_views_agree();
        }
        self.jobs.names()
    }

    /// Whether a worker is registered under `name`.
    pub fn has_registered(&self, name: &str) -> (r: bool)
        requires
            self.wf(),
        ensures
            r == self.workers().contains_key(name@),
    {
        self.jobs.contains_key(name)
    }

    /// Whether a cron schedule is registered under `name`.
    pub fn has_registered_cron(&self, name: &str) -> (r: bool)
        requires
            self.wf(),
        ensures
            r == self.cron_jobs().contains_key(name@),
    {
        self.schedules.contains_key(name)
    }

    /// The cron schedule registered under `name`, if any.
    pub fn cron_job(&self, name: &str) -> (r: Option<&CronJob>)
        requires
            self.wf(),
        ensures
            match r {
                Some(c) => self.cron_jobs().contains_key(name@) && *c == self.cron_jobs()[name@],
                None => !self.cron_jobs().contains_key(name@),
            },
    {
        self.schedules.get(name)
    }

    /// The names of the workers that run on a cron schedule, each once.
    pub fn cron_worker_names(&self) -> (r: Vec<String>)
        requires
            self.wf(),
        ensures
            string_views(r@).no_duplicates(),
            forall|k: Seq<char>| #[trigger]
                self.cron_jobs().contains_key(k) <==> string_views(r@).contains(k),
    {
        proof {
            self.schedules.lemma_views_agree();
        }
        self.schedules.names()
    }

    /// How the worker registered under `name` batches its jobs, if it does.
    pub fn batch_config(&self, name: &str) -> (r: Option<WorkerBatchConfig>)
        requires
            self.wf(),
        ensures
            r == (if self.workers().contains_key(name@) {
                self.workers()[name@].batch_config
            } else {
                None
            }),
    {
        match self.jobs.get(name) {
            Some(entry) => entry.batch_config,
            None => None,
        }
    }

    /// Whether the worker registered under `k` batches its jobs.
    pub open spec fn batches(&self, k: Seq<char>) -> bool {
        self.workers().contains_key(k) && self.workers()[k].batch_config is Some
    }

    /// Whether any registered worker batches its jobs.
    pub fn has_batch_workers(&self) -> (r: bool)
        requires
            self.wf(),
        ensures
            r == exists|k: Seq<char>| self.batches(k),
    {
        self.max_batch_size_among().is_some()
    }

    /// The largest batch size among the workers that batch; `None` when no
    /// worker batches.
    fn max_batch_size_among(&self) -> (r: Option<usize>)
        requires
            self.wf(),
        ensures
            r is None <==> !exists|k: Seq<char>| self.batches(k),
            r matches Some(m) ==> (exists|k: Seq<char>|
                self.batches(k) && self.workers()[k].batch_config->0.batch_size == m),
            r matches Some(m) ==> (forall|k: Seq<char>|
                self.batches(k) ==> self.workers()[k].batch_config->0.batch_size <= m),
    {
        proof {
            self.jobs.lemma_views_agree();
        }
        let mut best: Option<usize> = None;
        let mut i: usize = 0;
        let n = self.jobs.len();
        while i < n
            invariant
                self.wf(),
                n == self.jobs@.len(),
                i <= n,
                self.jobs.entry_seq().len() == n,
                forall|j: int|
                    0 <= j < n ==> #[trigger] self.jobs.entry_seq()[j].0 == self.jobs.name_seq()[j]
                        && self.jobs@.contains_key(self.jobs.name_seq()[j]) && self.jobs@[self.jobs.name_seq()[j]]
                        == self.jobs.entry_seq()[j].1,
                forall|k: Seq<char>| #[trigger] self.jobs@.contains_key(k) <==> self.jobs.name_seq().contains(k),
                best is None <==> forall|j: int| 0 <= j < i ==> #[trigger] self.jobs.entry_seq()[j].1.batch_config is None,
                best matches Some(m) ==> (exists|j: int| 0 <= j < i && #[trigger] self.jobs.entry_seq()[j].1.batch_config == Some(WorkerBatchConfig { batch_size: m, batch_linger_ms: self.jobs.entry_seq()[j].1.batch_config->0.batch_linger_ms })),
                best matches Some(m) ==> (forall|j: int| 0 <= j < i && #[trigger] self.jobs.entry_seq()[j].1.batch_config is Some ==> self.jobs.entry_seq()[j].1.batch_config->0.batch_size <= m),
            decreases n - i,
        {
            match self.jobs.value_at(i).batch_config {
                Some(c) => {
                    best = match best {
                        Some(m) => if c.batch_size > m { Some(c.batch_size) } else { Some(m) },
                        None => Some(c.batch_size),
                    };
                },
                None => {},
            }
            i = i + 1;
        }
        proof {
            assert forall|k: Seq<char>| self.batches(k) implies best is Some && self.workers()[k].batch_config->0.batch_size <= best->0 by {
                let j = choose|j: int| 0 <= j < self.jobs.name_seq().len() && self.jobs.name_seq()[j] == k;
                assert(self.jobs.entry_seq()[j].0 == self.jobs.name_seq()[j]);
            }
            if best is Some {
                let j = choose|j: int| 0 <= j < i && #[trigger] self.jobs.entry_seq()[j].1.batch_config == Some(WorkerBatchConfig { batch_size: best->0, batch_linger_ms: self.jobs.entry_seq()[j].1.batch_config->0.batch_linger_ms });
                assert(self.jobs.entry_seq()[j].0 == self.jobs.name_seq()[j]);
                assert(self.batches(self.jobs.name_seq()[j]));
            }
        }
        best
    }

    /// The largest batch size among the workers that batch; 1 when no worker
    /// batches.
    pub fn max_batch_size(&self) -> (r: usize)
        requires
            self.wf(),
        ensures
            forall|k: Seq<char>|
                self.batches(k) ==> self.workers()[k].batch_config->0.batch_size <= r,
            (exists|k: Seq<char>| self.batches(k) && self.workers()[k].batch_config->0.batch_size == r)
                || ((!exists|k: Seq<char>| self.batches(k)) && r == 1),
    {
        match self.max_batch_size_among() {
            Some(m) => m,
            None => 1,
        }
    }

    /// The job factory of the worker registered under `name`; an error if
    /// there is none.
    pub fn factory(&self, name: &str) -> (r: Result<&F, OxanusError>)
        requires
            self.wf(),
        ensures
            match r {
                Ok(f) => self.workers().contains_key(name@) && *f == self.workers()[name@].factory,
                Err(e) => !self.workers().contains_key(name@) && (e matches OxanusError::GenericError(
                    m,
                ) && m@ == spec_not_registered_message(name@)),
            },
    {
        match self.jobs.get(name) {
            Some(entry) => Ok(&entry.factory),
            None => {
                proof {
                    reveal_strlit("Job type ");
                    reveal_strlit(" not registered");
                }
                let m = concat3("Job type ", name, " not registered");
                assert(m@ =~= spec_not_registered_message(name@));
                Err(OxanusError::GenericError(m))
            },
        }
    }
}

impl<F> Default for WorkerRegistry<F> {
    fn default() -> (r: Self)
        ensures
            r.wf(),
            r.workers() == Map::<Seq<char>, WorkerEntry<F>>::empty(),
            r.cron_jobs() == Map::<Seq<char>, CronJob>::empty(),
    {
        Self::new()
    }
}

/// The arguments of a batch that could be read, in order.
pub open spec fn spec_valid_items<A>(results: Seq<Result<A, String>>) -> Seq<A>
    decreases results.len(),
{
    if results.len() == 0 {
        Seq::empty()
    } else {
        let earlier = spec_valid_items(results.drop_last());
        match results.last() {
            Ok(a) => earlier.push(a),
            Err(_) => earlier,
        }
    }
}

/// The positions and errors of the arguments of a batch that could not be
/// read, in order.
pub open spec fn spec_invalid_items<A>(results: Seq<Result<A, String>>) -> Seq<(int, Seq<char>)>
    decreases results.len(),
{
    if results.len() == 0 {
        Seq::empty()
    } else {
        let earlier = spec_invalid_items(results.drop_last());
        match results.last() {
            Ok(_) => earlier,
            Err(e) => earlier.push(((results.len() - 1) as int, e@)),
        }
    }
}

/// Every job of a batch is accounted for exactly once: it is either read
/// or reported invalid; the invalid ones are reported in order of their
/// positions, which lie within the batch.
pub proof fn law_batch_partition_covers_all<A>(results: Seq<Result<A, String>>)
    ensures
        spec_valid_items(results).len() + spec_invalid_items(results).len() == results.len(),
        forall|i: int|
            0 <= i < spec_invalid_items(results).len() ==> {
                let (index, error) = #[trigger] spec_invalid_items(results)[i];
                &&& 0 <= index < results.len()
                &&& results[index] matches Err(e) && e@ == error
            },
        forall|i: int, j: int|
            0 <= i < j < spec_invalid_items(results).len() ==> #[trigger] spec_invalid_items(
                results,
            )[i].0 < #[trigger] spec_invalid_items(results)[j].0,
    decreases results.len(),
{
    if results.len() > 0 {
        let earlier = results.drop_last();
        law_batch_partition_covers_all(earlier);
        let inv = spec_invalid_items(results);
        let inv_e = spec_invalid_items(earlier);
        assert forall|i: int| 0 <= i < inv_e.len() implies inv_e[i].0 < results.len() - 1 && (
        results[inv_e[i].0] matches Err(e) && e@ == inv_e[i].1) by {
            assert(results[inv_e[i].0] == earlier[inv_e[i].0]);
        }
    }
}

/// Registering a worker makes it found under its name with what was
/// registered, and leaves every other name as it was.
pub proof fn law_registered_worker_found<F>(
    before: Map<Seq<char>, WorkerEntry<F>>,
    name: Seq<char>,
    entry: WorkerEntry<F>,
)
    ensures
        before.insert(name, entry).contains_key(name),
        before.insert(name, entry)[name] == entry,
        forall|other: Seq<char>|
            other != name ==> (#[trigger] before.insert(name, entry).contains_key(other)
                == before.contains_key(other)) && (before.contains_key(other) ==> before.insert(
                name,
                entry,
            )[other] == before[other]),
{
}

/// The abstract values of invalid batch jobs.
pub open spec fn invalid_views(v: Seq<InvalidBatchJob>) -> Seq<(int, Seq<char>)> {
    v.map_values(|j: InvalidBatchJob| (j.index as int, j.error@))
}

/// Splits the outcomes of reading each job of a batch into the jobs that
/// were read, in order, and the positions and errors of those that were not.
pub fn partition_batch_items<A>(results: Vec<Result<A, String>>) -> (r: (
    Vec<A>,
    Vec<InvalidBatchJob>,
))
    ensures
        r.0@ == spec_valid_items(results@),
        invalid_views(r.1@) == spec_invalid_items(results@),
{
    let ghost all = results@;
    let mut jobs: Vec<A> = Vec::new();
    let mut invalid: Vec<InvalidBatchJob> = Vec::new();
    let mut rest = results;
    let mut index: usize = 0;
    let total = rest.len();
    assert(all.len() == total);
    while rest.len() > 0
        invariant
            index + rest@.len() == all.len(),
            all.len() <= usize::MAX,
            rest@ == all.subrange(index as int, all.len() as int),
            jobs@ == spec_valid_items(all.take(index as int)),
            invalid_views(invalid@) == spec_invalid_items(all.take(index as int)),
        decreases rest@.len(),
    {
        let item = rest.remove(0);
        proof {
            assert(all.take(index + 1).drop_last() =~= all.take(index as int));
            assert(all.take(index + 1).last() == item);
        }
        match item {
            Ok(a) => {
                jobs.push(a);
            },
            Err(error) => {
                let ghost before = invalid@;
                invalid.push(InvalidBatchJob { index, error });
                assert(invalid_views(invalid@) =~= invalid_views(before).push(
                    (index as int, invalid@.last().error@),
                ));
            },
        }
        assert(rest@ =~= all.subrange(index + 1, all.len() as int));
        index = index + 1;
    }
    assert(all.take(index as int) =~= all);
    (jobs, invalid)
}

} // verus!
