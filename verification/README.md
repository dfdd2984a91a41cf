# oxanus

The core of Oxanus, a Redis-backed job processing library, written in Verus
with its behaviour stated in `requires` / `ensures` contracts and proved.

## Layout

- `src/` — the verified library:
  - `job_envelope` — stored jobs: ids (unique or random), metadata,
    timestamps and latencies;
  - `worker`, `batch_processor` — retry policy (default backoff of
    `5^(retries + 2)` seconds), uniqueness and cron scheduling of workers;
  - `worker_registry`, `config` — registration of workers, cron schedules
    and queues;
  - `executor` — what follows a run: finish, retry or kill, per job and per
    batch;
  - `coordinator`, `dispatcher`, `semaphores_map` — the decisions of the
    per-queue loops: batch gathering, queue watching, shutdown waiting,
    dequeue results and throttling waits;
  - `macro_attributes` — the grammar of the `#[oxanus(...)]` attributes;
  - `named_map`, `text` — a string-keyed map with a map view, and decimal
    rendering. The registry, the batch buffers and the queue tracker keep
    their entries by name in a `NamedMap` (a `Vec` of entries with a
    `Map<Seq<char>, V>` view and the invariant that no name occurs twice)
    rather than in std's `HashMap<String, _>` / `HashSet<String>`: vstd's
    specification of those accepts `String` keys, but does not let Verus
    prove what a lookup or an insert does under a `String` key, which every
    contract here rests on.
- `tests/` — tests of the library on concrete values.
- `app/` — the runtime around the library: async execution of workers,
  the coordinator and dispatcher loops, the storage backend interface,
  serialization records and the derive-macro code generation.

Laws of the library are public proof functions named `law_*`.
