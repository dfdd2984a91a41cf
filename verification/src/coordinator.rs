//! The decisions of the coordinator of a queue: how many jobs it runs at
//! once, how jobs of batching workers are gathered into batches, which
//! queues it starts watching, and when it stops waiting for running jobs at
//! shutdown.

use vstd::prelude::*;
use crate::job_envelope::{JobEnvelope, Job, JobMeta, json_null};
use crate::named_map::{NamedMap, string_views};
use crate::worker_registry::{InvalidBatchJob, WorkerRegistry, invalid_views};
use crate::executor::{JobPlan, JobResultKind, StorageAction, StorageActionView, action_views};
use crate::text::{concat2, concat4};

verus! {

/// How often, in milliseconds, the coordinator checks for batches that
/// waited long enough when some worker batches.
pub const BATCH_CHECK_INTERVAL_MS: u64 = 50;

/// How often, in milliseconds, the coordinator's batch timer fires when no
/// worker batches: once a day.
pub const IDLE_BATCH_CHECK_INTERVAL_MS: u64 = 86_400_000;

/// How long, in milliseconds, the coordinator sleeps between checks for
/// running jobs at shutdown.
pub const SHUTDOWN_POLL_MS: u64 = 10;

/// How many checks for running jobs at shutdown pass between two reports
/// of how many jobs are still running.
pub const SHUTDOWN_REPORT_EVERY: u64 = 200;

/// How many jobs a queue's coordinator may hold at once: the queue's
/// concurrency times the largest batch size.
pub fn effective_concurrency(concurrency: usize, max_batch_size: usize) -> (r: usize)
    requires
        concurrency * max_batch_size <= usize::MAX,
    ensures
        r == concurrency * max_batch_size,
{
    concurrency * max_batch_size
}

/// The period of the coordinator's batch timer.
pub fn batch_check_interval_ms(has_batch_workers: bool) -> (r: u64)
    ensures
        r == if has_batch_workers {
            BATCH_CHECK_INTERVAL_MS
        } else {
            IDLE_BATCH_CHECK_INTERVAL_MS
        },
{
    if has_batch_workers {
        BATCH_CHECK_INTERVAL_MS
    } else {
        IDLE_BATCH_CHECK_INTERVAL_MS
    }
}

/// The jobs of one worker waiting to be processed as a batch, and when the
/// first of them arrived (in milliseconds of the coordinator's clock).
pub struct BatchBuffer<T> {
    pub items: Vec<T>,
    pub first_added_ms: u64,
}

/// The batches being gathered, by worker name.
pub struct BatchBuffers<T> {
    buffers: NamedMap<BatchBuffer<T>>,
}

/// A batch taken out of the buffers: the worker it is for and its jobs.
pub struct ReadyBatch<T> {
    pub worker_name: String,
    pub items: Vec<T>,
}

/// The jobs waiting for `name`, none if no batch is being gathered for it.
pub open spec fn pending_items<T>(p: Map<Seq<char>, (Seq<T>, u64)>, name: Seq<char>) -> Seq<T> {
    if p.contains_key(name) {
        p[name].0
    } else {
        Seq::empty()
    }
}

/// Adding a job to the jobs waiting for a worker: once there are at least
/// `batch_size` of them they all leave as one batch and nothing waits;
/// otherwise they keep waiting.
pub open spec fn spec_batch_push<T>(pending: Seq<T>, item: T, batch_size: nat) -> (Option<Seq<T>>, Seq<T>) {
    let after = pending.push(item);
    if after.len() >= batch_size {
        (Some(after), Seq::empty())
    } else {
        (None, after)
    }
}

/// The abstract value of an optional vector.
pub open spec fn opt_vec_view<T>(v: Option<Vec<T>>) -> Option<Seq<T>> {
    match v {
        Some(v) => Some(v@),
        None => None,
    }
}

/// The time since `since`, or zero if `since` lies ahead of `now`.
pub open spec fn spec_elapsed(now: u64, since: u64) -> nat {
    if now >= since {
        (now - since) as nat
    } else {
        0
    }
}

/// How long a partial batch of the worker registered under `name` waits.
pub open spec fn linger_of<F>(registry: WorkerRegistry<F>, name: Seq<char>) -> Option<u64> {
    if registry.batches(name) {
        Some(registry.workers()[name].batch_config->0.batch_linger_ms)
    } else {
        None
    }
}

/// Whether a batch leaves its buffer: when draining, every batch that holds
/// a job; otherwise a batch of a batching worker that has waited at least
/// its linger time.
pub open spec fn spec_batch_ready<T>(
    drain_all: bool,
    now: u64,
    linger: Option<u64>,
    buffer: (Seq<T>, u64),
) -> bool {
    if drain_all {
        buffer.0.len() > 0
    } else {
        match linger {
            Some(l) => spec_elapsed(now, buffer.1) >= l,
            None => false,
        }
    }
}

impl<T> BatchBuffers<T> {
    /// The batches being gathered: for each worker name, the waiting jobs
    /// in arrival order and when the first arrived.
    pub closed spec fn pending(&self) -> Map<Seq<char>, (Seq<T>, u64)> {
        self.buffers@.map_values(|b: BatchBuffer<T>| (b.items@, b.first_added_ms))
    }

    /// The buffers' internal invariant.
    pub closed spec fn wf(&self) -> bool {
        self.buffers.wf()
    }

    /// No batches.
    pub fn new() -> (r: Self)
        ensures
            r.wf(),
            r.pending() == Map::<Seq<char>, (Seq<T>, u64)>::empty(),
    {
        let r = BatchBuffers { buffers: NamedMap::new() };
        assert(r.pending() =~= Map::<Seq<char>, (Seq<T>, u64)>::empty());
        r
    }

    /// Adds a job for worker `worker_name` at time `now_ms`; returns the
    /// batch of that worker's jobs when it has reached `batch_size` jobs.
    pub fn push(&mut self, worker_name: String, item: T, now_ms: u64, batch_size: usize) -> (r:
        Option<Vec<T>>)
        requires
            old(self).wf(),
        ensures
            final(self).wf(),
            ({
                let (emitted, remaining) = spec_batch_push(
                    pending_items(old(self).pending(), worker_name@),
                    item,
                    batch_size as nat,
                );
                &&& opt_vec_view(r) == emitted
                &&& emitted is Some ==> !final(self).pending().contains_key(worker_name@)
                &&& emitted is None ==> final(self).pending().contains_key(worker_name@)
                    && final(self).pending()[worker_name@] == (
                    remaining,
                    if old(self).pending().contains_key(worker_name@) {
                        old(self).pending()[worker_name@].1
                    } else {
                        now_ms
                    },
                )
            }),
            final(self).pending().remove(worker_name@) == old(self).pending().remove(worker_name@),
    {
        let ghost k = worker_name@;
        let existing = self.buffers.remove(worker_name.as_str());
        let mut buffer = match existing {
            Some(b) => b,
            None => BatchBuffer { items: Vec::new(), first_added_ms: now_ms },
        };
        proof {
            assert(buffer.items@ == pending_items(old(self).pending(), k));
        }
        buffer.items.push(item);
        if buffer.items.len() >= batch_size {
            assert(self.pending() =~= old(self).pending().remove(k));
            Some(buffer.items)
        } else {
            self.buffers.insert(worker_name, buffer);
            assert(self.pending().remove(k) =~= old(self).pending().remove(k));
            None
        }
    }

    /// Takes out the batches that are ready at time `now_ms`: with
    /// `drain_all`, every batch that holds a job; otherwise the batches of
    /// batching workers that waited at least their linger time. The other
    /// batches stay.
    pub fn take_ready<F>(&mut self, registry: &WorkerRegistry<F>, now_ms: u64, drain_all: bool) -> (r:
        Vec<ReadyBatch<T>>)
        requires
            old(self).wf(),
            registry.wf(),
        ensures
            final(self).wf(),
            forall|k: Seq<char>| #[trigger]
                final(self).pending().contains_key(k) <==> old(self).pending().contains_key(k)
                    && !spec_batch_ready(
                    drain_all,
                    now_ms,
                    linger_of(*registry, k),
                    old(self).pending()[k],
                ),
            forall|k: Seq<char>| #[trigger]
                final(self).pending().contains_key(k) ==> final(self).pending()[k] == old(
                    self,
                ).pending()[k],
            ready_names(r@).no_duplicates(),
            forall|i: int|
                0 <= i < r@.len() ==> {
                    let k = #[trigger] r@[i].worker_name@;
                    &&& old(self).pending().contains_key(k)
                    &&& spec_batch_ready(
                        drain_all,
                        now_ms,
                        linger_of(*registry, k),
                        old(self).pending()[k],
                    )
                    &&& r@[i].items@ == old(self).pending()[k].0
                },
            forall|k: Seq<char>|
                #![trigger old(self).pending()[k]]
                old(self).pending().contains_key(k) && spec_batch_ready(
                    drain_all,
                    now_ms,
                    linger_of(*registry, k),
                    old(self).pending()[k],
                ) ==> ready_names(r@).contains(k),
    {
        let ghost old_pending = self.pending();
        proof {
            self.buffers.lemma_views_agree();
        }
        let names = self.buffers.names();
        let ghost all_names = string_views(names@);
        assert(all_names.len() == names@.len());
        let mut ready: Vec<ReadyBatch<T>> = Vec::new();
        let mut i: usize = 0;
        while i < names.len()
            invariant
                self.wf(),
                registry.wf(),
                i <= names@.len(),
                all_names == string_views(names@),
                all_names.no_duplicates(),
                forall|k: Seq<char>| #[trigger] old_pending.contains_key(k) <==> all_names.contains(k),
                forall|k: Seq<char>| #[trigger]
                    self.pending().contains_key(k) <==> old_pending.contains_key(k) && !(
                    all_names.take(i as int).contains(k) && spec_batch_ready(
                        drain_all,
                        now_ms,
                        linger_of(*registry, k),
                        old_pending[k],
                    )),
                forall|k: Seq<char>| #[trigger]
                    self.pending().contains_key(k) ==> self.pending()[k] == old_pending[k],
                ready_names(ready@).no_duplicates(),
                forall|j: int|
                    0 <= j < ready@.len() ==> {
                        let k = #[trigger] ready@[j].worker_name@;
                        &&& all_names.take(i as int).contains(k)
                        &&& old_pending.contains_key(k)
                        &&& spec_batch_ready(
                            drain_all,
                            now_ms,
                            linger_of(*registry, k),
                            old_pending[k],
                        )
                        &&& ready@[j].items@ == old_pending[k].0
                    },
                forall|k: Seq<char>|
                    #![trigger old_pending[k]]
                    all_names.take(i as int).contains(k) && old_pending.contains_key(k)
                        && spec_batch_ready(drain_all, now_ms, linger_of(*registry, k), old_pending[k])
                        ==> ready_names(ready@).contains(k),
            decreases names@.len() - i,
        {
            let name = &names[i];
            let ghost k = name@;
            let ghost next_prefix = all_names.take(i + 1);
            let ghost ready_before = ready@;
            let ghost pending_before = self.pending();
            assert(all_names[i as int] == k);
            assert(next_prefix =~= all_names.take(i as int).push(k));
            assert(!all_names.take(i as int).contains(k)) by {
                if all_names.take(i as int).contains(k) {
                    let j = choose|j: int| 0 <= j < i && all_names.take(i as int)[j] == k;
                    assert(all_names[j] == all_names[i as int]);
                }
            }
            assert(all_names.contains(k));
            let is_ready = match self.buffers.get(name.as_str()) {
                Some(buffer) => {
                    if drain_all {
                        buffer.items.len() > 0
                    } else {
                        match registry.batch_config(name.as_str()) {
                            Some(cfg) => {
                                let elapsed = if now_ms >= buffer.first_added_ms {
                                    now_ms - buffer.first_added_ms
                                } else {
                                    0
                                };
                                elapsed >= cfg.batch_linger_ms
                            },
                            None => false,
                        }
                    }
                },
                None => false,
            };
            proof {
                if self.pending().contains_key(k) {
                    assert(is_ready == spec_batch_ready(
                        drain_all,
                        now_ms,
                        linger_of(*registry, k),
                        old_pending[k],
                    ));
                }
            }
            if is_ready {
                let ghost before = ready@;
                let taken = self.buffers.remove(name.as_str());
                assert(self.pending() =~= pending_before.remove(k));
                match taken {
                    Some(buffer) => {
                        ready.push(ReadyBatch { worker_name: name.clone(), items: buffer.items });
                        assert(ready_names(ready@) =~= ready_names(before).push(k));
                        assert(!ready_names(before).contains(k)) by {
                            if ready_names(before).contains(k) {
                                let j = choose|j: int| 0 <= j < before.len() && ready_names(before)[j] == k;
                                assert(before[j].worker_name@ == k);
                            }
                        }
                        assert forall|j: int| 0 <= j < ready@.len() implies {
                            let kk = #[trigger] ready@[j].worker_name@;
                            &&& next_prefix.contains(kk)
                            &&& old_pending.contains_key(kk)
                            &&& spec_batch_ready(
                                drain_all,
                                now_ms,
                                linger_of(*registry, kk),
                                old_pending[kk],
                            )
                            &&& ready@[j].items@ == old_pending[kk].0
                        } by {
                            if j < before.len() {
                                assert(ready@[j] == before[j]);
                                let kk = before[j].worker_name@;
                                let w = choose|w: int| 0 <= w < i && all_names.take(i as int)[w] == kk;
                                assert(next_prefix[w] == kk);
                            } else {
                                assert(next_prefix[i as int] == k);
                            }
                        }
                    },
                    None => {},
                }
            }
            proof {
                assert forall|kk: Seq<char>|
                    next_prefix.contains(kk) && old_pending.contains_key(kk) && spec_batch_ready(
                        drain_all,
                        now_ms,
                        linger_of(*registry, kk),
                        old_pending[kk],
                    ) implies ready_names(ready@).contains(kk) by {
                    if kk != k {
                        let w = choose|w: int| 0 <= w <= i && next_prefix[w] == kk;
                        assert(w != i);
                        assert(all_names.take(i as int)[w] == kk);
                        assert(ready_names(ready_before).contains(kk));
                        let v = choose|v: int| 0 <= v < ready_before.len() && ready_names(ready_before)[v] == kk;
                        assert(ready@[v] == ready_before[v]);
                        assert(ready_names(ready@)[v] == kk);
                    } else {
                        assert(self.pending().contains_key(k) || ready@.len() == ready_before.len() + 1);
                        assert(ready@.last().worker_name@ == k);
                        assert(ready_names(ready@)[ready@.len() - 1] == k);
                    }
                }
                assert forall|j: int| 0 <= j < ready@.len() implies next_prefix.contains(
                    #[trigger] ready@[j].worker_name@,
                ) by {
                    let kk = ready@[j].worker_name@;
                    if kk != k {
                        let w = choose|w: int| 0 <= w < i && all_names.take(i as int)[w] == kk;
                        assert(next_prefix[w] == kk);
                    } else {
                        assert(next_prefix[i as int] == k);
                    }
                }
                assert forall|kk: Seq<char>| #[trigger]
                    self.pending().contains_key(kk) <==> old_pending.contains_key(kk) && !(
                    next_prefix.contains(kk) && spec_batch_ready(
                        drain_all,
                        now_ms,
                        linger_of(*registry, kk),
                        old_pending[kk],
                    )) by {
                    if kk != k {
                        if next_prefix.contains(kk) {
                            let w = choose|w: int| 0 <= w <= i && next_prefix[w] == kk;
                            assert(all_names.take(i as int)[w] == kk);
                        }
                        if all_names.take(i as int).contains(kk) {
                            let w = choose|w: int| 0 <= w < i && all_names.take(i as int)[w] == kk;
                            assert(next_prefix[w] == kk);
                        }
                    } else {
                        assert(next_prefix[i as int] == k);
                    }
                }
            }
            i = i + 1;
        }
        assert(all_names.take(names@.len() as int) =~= all_names);
        ready
    }
}

/// The worker names of ready batches.
pub open spec fn ready_names<T>(v: Seq<ReadyBatch<T>>) -> Seq<Seq<char>> {
    v.map_values(|b: ReadyBatch<T>| b.worker_name@)
}

/// No job is lost or duplicated by adding it to a batch: the batch that
/// leaves, if one does, and the jobs still waiting are, together, the jobs
/// that waited before and the new one, in arrival order.
pub proof fn law_batch_push_keeps_every_job<T>(pending: Seq<T>, item: T, batch_size: nat)
    ensures
        ({
            let (emitted, remaining) = spec_batch_push(pending, item, batch_size);
            match emitted {
                Some(b) => b == pending.push(item) && remaining.len() == 0,
                None => remaining == pending.push(item),
            }
        }),
{
}

/// While fewer than `batch_size` jobs wait for a worker, every batch that
/// leaves on adding a job holds exactly `batch_size` jobs, and fewer than
/// `batch_size` jobs are left waiting.
pub proof fn law_batch_push_full_batches<T>(pending: Seq<T>, item: T, batch_size: nat)
    requires
        batch_size >= 1,
        pending.len() < batch_size,
    ensures
        ({
            let (emitted, remaining) = spec_batch_push(pending, item, batch_size);
            &&& emitted matches Some(b) ==> b.len() == batch_size
            &&& remaining.len() < batch_size
        }),
{
}

/// When a batch leaves its buffer, in plain time: when not draining, the
/// batch of a worker that batches with linger `linger` and whose first job
/// arrived at `first` leaves exactly once `linger` milliseconds have passed
/// since then (at once for a linger of zero), however many jobs it holds;
/// the jobs of a worker that does not batch never leave on time alone; and
/// draining takes exactly the batches that hold a job.
pub proof fn law_batch_ready_by_time<T>(now: u64, first: u64, linger: u64, jobs: Seq<T>)
    ensures
        spec_batch_ready(false, now, Some(linger), (jobs, first)) <==> (now >= first + linger
            || linger == 0),
        !spec_batch_ready(false, now, None, (jobs, first)),
        spec_batch_ready(true, now, Some(linger), (jobs, first)) <==> jobs.len() > 0,
        spec_batch_ready(true, now, None, (jobs, first)) <==> jobs.len() > 0,
{
}

/// Draining leaves no job waiting: every batch that still holds a job is
/// taken out.
pub proof fn law_drain_takes_every_job<T>(now: u64, linger: Option<u64>, buffer: (Seq<T>, u64))
    ensures
        !spec_batch_ready(true, now, linger, buffer) ==> buffer.0.len() == 0,
{
}

/// The queues that are seen for the first time, each once, in the order
/// they were listed.
pub open spec fn spec_new_queues(listed: Seq<Seq<char>>, watched: Set<Seq<char>>) -> Seq<Seq<char>>
    decreases listed.len(),
{
    if listed.len() == 0 {
        Seq::empty()
    } else {
        let earlier = spec_new_queues(listed.drop_last(), watched);
        let q = listed.last();
        if watched.contains(q) || earlier.contains(q) {
            earlier
        } else {
            earlier.push(q)
        }
    }
}

/// The queues that a coordinator has started watching.
pub struct QueueTracker {
    watched: NamedMap<()>,
}

impl QueueTracker {
    /// The keys of the queues being watched.
    pub closed spec fn watched(&self) -> Set<Seq<char>> {
        self.watched@.dom()
    }

    /// The tracker's internal invariant.
    pub closed spec fn wf(&self) -> bool {
        self.watched.wf()
    }

    /// No queue is watched yet.
    pub fn new() -> (r: Self)
        ensures
            r.wf(),
            r.watched() == Set::<Seq<char>>::empty(),
    {
        let r = QueueTracker { watched: NamedMap::new() };
        assert(r.watched() =~= Set::<Seq<char>>::empty());
        r
    }

    /// Takes note of the queues currently listed and returns those that
    /// were not watched yet, each once; from now on they are watched too.
    pub fn track(&mut self, listed: &Vec<String>) -> (r: Vec<String>)
        requires
            old(self).wf(),
        ensures
            final(self).wf(),
            string_views(r@) == spec_new_queues(string_views(listed@), old(self).watched()),
            final(self).watched() == old(self).watched() + string_views(listed@).to_set(),
    {
        let ghost start = self.watched();
        let mut fresh: Vec<String> = Vec::new();
        let mut i: usize = 0;
        while i < listed.len()
            invariant
                self.wf(),
                i <= listed@.len(),
                string_views(fresh@) == spec_new_queues(string_views(listed@).take(i as int), start),
                self.watched() == start + string_views(listed@).take(i as int).to_set(),
                forall|k: Seq<char>| spec_new_queues(string_views(listed@).take(i as int), start).contains(k) ==> !start.contains(k),
            decreases listed@.len() - i,
        {
            let ghost prefix = string_views(listed@).take(i as int);
            let ghost q = listed@[i as int]@;
            assert(string_views(listed@).take(i + 1) =~= prefix.push(q));
            assert(prefix.push(q).drop_last() =~= prefix);
            proof {
                lemma_new_queues_membership(prefix, start);
            }
            let queue = &listed[i];
            if !self.watched.contains_key(queue.as_str()) {
                let ghost before = fresh@;
                fresh.push(queue.clone());
                self.watched.insert(queue.clone(), ());
                assert(string_views(fresh@) =~= string_views(before).push(q));
            }
            assert(self.watched() =~= start + prefix.push(q).to_set()) by {
                assert forall|k: Seq<char>| #[trigger] self.watched().contains(k) <==> (start + prefix.push(q).to_set()).contains(k) by {
                    if prefix.push(q).to_set().contains(k) && k != q {
                        let w = choose|w: int| 0 <= w < prefix.push(q).len() && prefix.push(q)[w] == k;
                        assert(prefix[w] == k);
                        assert(prefix.to_set().contains(k));
                    }
                    if prefix.to_set().contains(k) {
                        let w = choose|w: int| 0 <= w < prefix.len() && prefix[w] == k;
                        assert(prefix.push(q)[w] == k);
                    }
                    if k == q {
                        assert(prefix.push(q)[prefix.len() as int] == q);
                    }
                }
            }
            i = i + 1;
        }
        assert(string_views(listed@).take(listed@.len() as int) =~= string_views(listed@));
        fresh
    }
}

/// A queue is new for the tracker exactly when it was listed, was not
/// watched and was not listed before.
proof fn lemma_new_queues_membership(listed: Seq<Seq<char>>, watched: Set<Seq<char>>)
    ensures
        forall|k: Seq<char>|
            spec_new_queues(listed, watched).contains(k) <==> (listed.contains(k) && !watched.contains(k)),
    decreases listed.len(),
{
    if listed.len() > 0 {
        let earlier = listed.drop_last();
        lemma_new_queues_membership(earlier, watched);
        assert forall|k: Seq<char>|
            spec_new_queues(listed, watched).contains(k) <==> (listed.contains(k) && !watched.contains(k)) by {
            let q = listed.last();
            if listed.contains(k) && k != q {
                let w = choose|w: int| 0 <= w < listed.len() && listed[w] == k;
                assert(earlier[w] == k);
            }
            if earlier.contains(k) {
                let w = choose|w: int| 0 <= w < earlier.len() && earlier[w] == k;
                assert(listed[w] == k);
            }
            if k == q {
                assert(listed[listed.len() - 1] == q);
            }
            let e = spec_new_queues(earlier, watched);
            if !(watched.contains(q) || e.contains(q)) {
                assert(e.push(q)[e.len() as int] == q);
                if e.push(q).contains(k) && k != q {
                    let w = choose|w: int| 0 <= w < e.push(q).len() && e.push(q)[w] == k;
                    assert(e[w] == k);
                }
                if e.contains(k) {
                    let w = choose|w: int| 0 <= w < e.len() && e[w] == k;
                    assert(e.push(q)[w] == k);
                }
            }
        }
    }
}

/// A queue is started at most once: the queues a tracker reports as new
/// were listed, were not watched before and appear once each.
pub proof fn law_queue_watched_once(listed: Seq<Seq<char>>, watched: Set<Seq<char>>)
    ensures
        spec_new_queues(listed, watched).no_duplicates(),
        forall|k: Seq<char>|
            spec_new_queues(listed, watched).contains(k) <==> (listed.contains(k) && !watched.contains(k)),
    decreases listed.len(),
{
    lemma_new_queues_membership(listed, watched);
    if listed.len() > 0 {
        law_queue_watched_once(listed.drop_last(), watched);
        let e = spec_new_queues(listed.drop_last(), watched);
        let q = listed.last();
        if !(watched.contains(q) || e.contains(q)) {
            assert forall|a: int, b: int|
                0 <= a < e.push(q).len() && 0 <= b < e.push(q).len() && a != b implies e.push(q)[a]
                != e.push(q)[b] by {
                if a == e.len() {
                    assert(e.contains(e[b]));
                } else if b == e.len() {
                    assert(e.contains(e[a]));
                }
            }
        }
    }
}

/// What the queue watcher does after a round: a static queue is watched
/// once; a dynamic family is looked up again after its sleep period until
/// the coordinator is cancelled.
pub enum WatcherStep {
    Stop,
    SleepMs(u64),
}

/// The queue watcher's next step.
pub fn watcher_step(cancelled: bool, dynamic_sleep_ms: Option<u64>) -> (r: WatcherStep)
    ensures
        (r is Stop) <==> (cancelled || dynamic_sleep_ms is None),
        r matches WatcherStep::SleepMs(ms) ==> dynamic_sleep_ms == Some(ms),
{
    if cancelled {
        WatcherStep::Stop
    } else {
        match dynamic_sleep_ms {
            Some(ms) => WatcherStep::SleepMs(ms),
            None => WatcherStep::Stop,
        }
    }
}

/// What the coordinator does while waiting for running jobs at shutdown.
#[derive(Debug, PartialEq, Eq, Structural)]
pub enum ShutdownWait {
    /// No job is running any more.
    Finished,
    /// The shutdown timeout passed; `report` says whether to report the
    /// jobs still running.
    TimedOut { report: bool },
    /// Sleep for `SHUTDOWN_POLL_MS` and check again; `report` says whether
    /// to report the jobs still running.
    Sleep { report: bool },
}

/// The step of the wait for running jobs at check number `tick` (counting
/// from 1), with `busy` jobs running and `elapsed_ms` passed since the wait
/// began.
pub fn shutdown_wait_step(tick: u64, busy: usize, elapsed_ms: u64, timeout_ms: u64) -> (r:
    ShutdownWait)
    ensures
        busy == 0 ==> r == ShutdownWait::Finished,
        busy != 0 && elapsed_ms > timeout_ms ==> r == (ShutdownWait::TimedOut {
            report: tick % SHUTDOWN_REPORT_EVERY == 0,
        }),
        busy != 0 && elapsed_ms <= timeout_ms ==> r == (ShutdownWait::Sleep {
            report: tick % SHUTDOWN_REPORT_EVERY == 0,
        }),
{
    if busy == 0 {
        return ShutdownWait::Finished;
    }
    let report = tick % SHUTDOWN_REPORT_EVERY == 0;
    if elapsed_ms > timeout_ms {
        ShutdownWait::TimedOut { report }
    } else {
        ShutdownWait::Sleep { report }
    }
}

/// The envelope reported for a job that was handed to the coordinator but
/// is missing from storage: an unknown worker, no arguments, and nothing
/// to resurrect.
pub fn missing_job_envelope(job_id: String, queue: String) -> (e: JobEnvelope)
    ensures
        e.id@ == job_id@,
        e.meta.id@ == job_id@,
        e.queue@ == queue@,
        e.job.name@ == "unknown"@,
        e.meta.retries == 0,
        !e.meta.unique,
        e.meta.on_conflict is None,
        e.meta.created_at == 0,
        e.meta.scheduled_at == 0,
        e.meta.state is None,
        !e.meta.resurrect,
{
    JobEnvelope {
        id: job_id.clone(),
        queue,
        job: Job { name: String::from_str("unknown"), args: json_null() },
        meta: JobMeta {
            id: job_id,
            retries: 0,
            unique: false,
            on_conflict: None,
            created_at: 0,
            scheduled_at: 0,
            state: None,
            resurrect: false,
        },
    }
}

/// The message recorded when a job cannot be built by its worker.
pub fn invalid_job_message(name: &str, error: &str) -> (r: String)
    ensures
        r@ == "Invalid job: "@ + name@ + " - "@ + error@,
{
    concat4("Invalid job: ", name, " - ", error)
}

/// The message recorded when a batch's worker has no batch configuration.
pub fn missing_batch_config_message(worker_name: &str) -> (r: String)
    ensures
        r@ == "Batch config not found for "@ + worker_name@,
{
    concat2("Batch config not found for ", worker_name)
}

/// The message recorded when a batch processor cannot be built.
pub fn batch_processor_failure_message(error: &str) -> (r: String)
    ensures
        r@ == "Failed to build batch processor: "@ + error@,
{
    concat2("Failed to build batch processor: ", error)
}

/// The plan for a job that its worker could not build: it is killed with a
/// message naming the worker and the error, and reported failed.
pub fn invalid_job_plan(name: &str, error: &str) -> (r: JobPlan)
    ensures
        action_views(r.actions@) == seq![
            StorageActionView::Kill { error: "Invalid job: "@ + name@ + " - "@ + error@ },
        ],
        r.kind == JobResultKind::Failed,
{
    let mut actions: Vec<StorageAction> = Vec::new();
    actions.push(StorageAction::Kill { error: invalid_job_message(name, error) });
    assert(action_views(actions@) =~= seq![
        StorageActionView::Kill { error: "Invalid job: "@ + name@ + " - "@ + error@ },
    ]);
    JobPlan { actions, kind: JobResultKind::Failed }
}

/// How far a ready batch got before it could run.
pub enum BatchPreparation {
    /// The worker has no batch configuration.
    MissingConfig,
    /// The batch processor could not be built.
    BuildFailed { error: String },
    /// The batch processor was built; these jobs had arguments it could not
    /// read.
    Built { invalid: Vec<InvalidBatchJob> },
}

/// What becomes of one job of a ready batch.
pub enum BatchItemFate {
    /// The job is killed with this error and reported failed.
    Kill { error: String },
    /// The job runs in the batch and is reported as the batch ended.
    Run,
}

/// The abstract value of a [`BatchItemFate`].
pub enum BatchItemFateView {
    Kill { error: Seq<char> },
    Run,
}

impl View for BatchItemFate {
    type V = BatchItemFateView;

    open spec fn view(&self) -> BatchItemFateView {
        match self {
            BatchItemFate::Kill { error } => BatchItemFateView::Kill { error: error@ },
            BatchItemFate::Run => BatchItemFateView::Run,
        }
    }
}

/// The error of the first invalid job at position `i`, if there is one.
pub open spec fn invalid_error_at(invalid: Seq<(int, Seq<char>)>, i: int) -> Option<Seq<char>>
    decreases invalid.len(),
{
    if invalid.len() == 0 {
        None
    } else if invalid[0].0 == i {
        Some(invalid[0].1)
    } else {
        invalid_error_at(invalid.drop_first(), i)
    }
}

/// The fate of job `i` of the batch of worker `name`: without a batch
/// configuration, or when the processor could not be built, every job is
/// killed; otherwise a job whose arguments were invalid is killed and
/// every other job runs.
pub open spec fn spec_item_fate(name: Seq<char>, preparation: BatchPreparation, i: int) -> BatchItemFateView {
    match preparation {
        BatchPreparation::MissingConfig => BatchItemFateView::Kill {
            error: "Batch config not found for "@ + name,
        },
        BatchPreparation::BuildFailed { error } => BatchItemFateView::Kill {
            error: "Failed to build batch processor: "@ + error@,
        },
        BatchPreparation::Built { invalid } => match invalid_error_at(invalid_views(invalid@), i) {
            Some(e) => BatchItemFateView::Kill { error: "Invalid job: "@ + name + " - "@ + e },
            None => BatchItemFateView::Run,
        },
    }
}

/// The error of the first invalid job at position `i`.
fn invalid_error_for(invalid: &Vec<InvalidBatchJob>, i: usize) -> (r: Option<&String>)
    ensures
        match r {
            Some(e) => invalid_error_at(invalid_views(invalid@), i as int) == Some(e@),
            None => invalid_error_at(invalid_views(invalid@), i as int) is None,
        },
{
    let ghost all = invalid_views(invalid@);
    assert(all.subrange(0, all.len() as int) =~= all);
    let mut j: usize = 0;
    while j < invalid.len()
        invariant
            j <= invalid@.len(),
            all == invalid_views(invalid@),
            invalid_error_at(all.subrange(j as int, all.len() as int), i as int)
                == invalid_error_at(all, i as int),
        decreases invalid@.len() - j,
    {
        let ghost rest = all.subrange(j as int, all.len() as int);
        assert(rest[0] == all[j as int]);
        if invalid[j].index == i {
            return Some(&invalid[j].error);
        }
        assert(rest.drop_first() =~= all.subrange(j + 1, all.len() as int));
        j = j + 1;
    }
    assert(all.subrange(j as int, all.len() as int).len() == 0);
    None
}

/// The fate of each of the `items` jobs of a ready batch of worker
/// `worker_name`, in order.
pub fn batch_item_fates(worker_name: &str, items: usize, preparation: &BatchPreparation) -> (r: Vec<
    BatchItemFate,
>)
    ensures
        r@.len() == items,
        forall|i: int| 0 <= i < items ==> #[trigger] r@[i]@ == spec_item_fate(worker_name@, *preparation, i),
{
    let mut r: Vec<BatchItemFate> = Vec::new();
    let mut i: usize = 0;
    while i < items
        invariant
            i <= items,
            r@.len() == i,
            forall|k: int| 0 <= k < i ==> #[trigger] r@[k]@ == spec_item_fate(worker_name@, *preparation, k),
        decreases items - i,
    {
        let fate = match preparation {
            BatchPreparation::MissingConfig => BatchItemFate::Kill {
                error: missing_batch_config_message(worker_name),
            },
            BatchPreparation::BuildFailed { error } => BatchItemFate::Kill {
                error: batch_processor_failure_message(error.as_str()),
            },
            BatchPreparation::Built { invalid } => match invalid_error_for(invalid, i) {
                Some(e) => BatchItemFate::Kill { error: invalid_job_message(worker_name, e.as_str()) },
                None => BatchItemFate::Run,
            },
        };
        r.push(fate);
        i = i + 1;
    }
    r
}

/// How job `i` of a batch is reported: a killed job as failed, a job that
/// ran as the batch ended.
pub open spec fn spec_item_report(fate: BatchItemFateView, run_kind: JobResultKind) -> JobResultKind {
    match fate {
        BatchItemFateView::Kill { .. } => JobResultKind::Failed,
        BatchItemFateView::Run => run_kind,
    }
}

/// The report of each job of a batch, in order: one per job.
pub fn batch_item_reports(fates: &Vec<BatchItemFate>, run_kind: JobResultKind) -> (r: Vec<JobResultKind>)
    ensures
        r@.len() == fates@.len(),
        forall|i: int| 0 <= i < fates@.len() ==> #[trigger] r@[i] == spec_item_report(fates@[i]@, run_kind),
{
    let mut r: Vec<JobResultKind> = Vec::new();
    let mut i: usize = 0;
    while i < fates.len()
        invariant
            i <= fates@.len(),
            r@.len() == i,
            forall|k: int| 0 <= k < i ==> #[trigger] r@[k] == spec_item_report(fates@[k]@, run_kind),
        decreases fates@.len() - i,
    {
        let kind = match &fates[i] {
            BatchItemFate::Kill { .. } => JobResultKind::Failed,
            BatchItemFate::Run => run_kind,
        };
        r.push(kind);
        i = i + 1;
    }
    r
}

/// Every job of a ready batch meets one fate and gets one report: it runs
/// exactly when the batch processor was built and its arguments were
/// valid, and otherwise it is killed and reported failed.
pub proof fn law_batch_item_fate(name: Seq<char>, preparation: BatchPreparation, i: int, run_kind: JobResultKind)
    ensures
        (spec_item_fate(name, preparation, i) is Run) <==> (preparation matches BatchPreparation::Built { invalid }
            && invalid_error_at(invalid_views(invalid@), i) is None),
        spec_item_fate(name, preparation, i) is Kill ==> spec_item_report(
            spec_item_fate(name, preparation, i),
            run_kind,
        ) == JobResultKind::Failed,
        spec_item_fate(name, preparation, i) is Run ==> spec_item_report(
            spec_item_fate(name, preparation, i),
            run_kind,
        ) == run_kind,
{
}

} // verus!
