//! Jobs as they are stored: the envelope around a job's arguments and its
//! metadata (identity, retries, uniqueness, timestamps).

use vstd::prelude::*;

verus! {

/// The JSON value type of `serde_json`; job arguments and resumable job
/// state are carried through as such values.
#[verifier::external_type_specification]
#[verifier::external_body]
pub struct ExJsonValue(serde_json::Value);

/// `serde_json::Value` derives `Clone`, which copies the value field by field:
/// the copy is the same value.
pub assume_specification[ <serde_json::Value as Clone>::clone ](v: &serde_json::Value) -> (r:
    serde_json::Value)
    ensures
        r == *v,
;

pub type JobId = String;

/// Every timestamp that `chrono` can represent lies strictly between
/// `-MICROS_RANGE` and `MICROS_RANGE` microseconds from the Unix epoch
/// (chrono supports years -262143 to 262142).
pub const MICROS_RANGE: i64 = 8_400_000_000_000_000_000;

/// The number of microseconds in a second.
pub const MICROS_PER_SEC: i64 = 1_000_000;

/// The number of microseconds in a millisecond.
pub const MICROS_PER_MILLI: i64 = 1_000;

/// How a unique job is treated when a job with the same id is already stored.
#[derive(Debug, Clone, Copy, PartialEq, Eq, Structural)]
pub enum JobConflictStrategy {
    /// Keep the stored job and discard the new one.
    Skip,
    /// Replace the stored job with the new one.
    Replace,
}

impl Default for JobConflictStrategy {
    fn default() -> (r: Self)
        ensures
            r == JobConflictStrategy::Skip,
    {
        JobConflictStrategy::Skip
    }
}

/// The job itself: the name of the worker that runs it and its arguments.
#[derive(Debug, Clone)]
pub struct Job {
    pub name: String,
    pub args: serde_json::Value,
}

/// Metadata of a stored job.
#[derive(Debug, Clone)]
pub struct JobMeta {
    pub id: JobId,
    pub retries: u32,
    pub unique: bool,
    pub on_conflict: Option<JobConflictStrategy>,
    /// Creation time, in microseconds since the Unix epoch.
    pub created_at: i64,
    /// Time from which the job may run, in microseconds since the Unix epoch.
    pub scheduled_at: i64,
    pub state: Option<serde_json::Value>,
    pub resurrect: bool,
}

/// A job together with its queue and metadata.
#[derive(Debug, Clone)]
pub struct JobEnvelope {
    pub id: JobId,
    pub job: Job,
    pub queue: String,
    pub meta: JobMeta,
}

/// Whether a stored job without the `resurrect` field is resurrected after a crash.
pub fn default_resurrect() -> (r: bool)
    ensures
        r,
{
    true
}

/// The characters that `uuid` uses in the hyphenated text of a UUID.
pub open spec fn is_uuid_char(c: char) -> bool {
    is_lower_hex_digit(c) || c == '-'
}

/// A lower-case hexadecimal digit.
pub open spec fn is_lower_hex_digit(c: char) -> bool {
    ('0' <= c <= '9') || ('a' <= c <= 'f')
}

/// The positions of the hyphens in the hyphenated text of a UUID, which
/// groups its 32 digits as 8-4-4-4-12.
pub open spec fn is_uuid_hyphen_position(i: int) -> bool {
    i == 8 || i == 13 || i == 18 || i == 23
}

/// The hyphenated lower-case text of a random (version 4, RFC 4122
/// variant) UUID: 32 hexadecimal digits grouped 8-4-4-4-12, the first digit
/// of the third group the version `4`, and the first digit of the fourth
/// group one of `8`, `9`, `a`, `b`.
pub open spec fn is_uuid_text(s: Seq<char>) -> bool {
    &&& s.len() == 36
    &&& forall|i: int|
        0 <= i < s.len() ==> if is_uuid_hyphen_position(i) {
            #[trigger] s[i] == '-'
        } else {
            is_lower_hex_digit(s[i])
        }
    &&& s[14] == '4'
    &&& (s[19] == '8' || s[19] == '9' || s[19] == 'a' || s[19] == 'b')
}

/// The id of the envelope of a job: the worker name and the unique id,
/// separated by a slash, for a unique job; the random id otherwise.
pub open spec fn spec_envelope_id(
    job_name: Seq<char>,
    unique_id: Option<Seq<char>>,
    random_id: Seq<char>,
) -> Seq<char> {
    match unique_id {
        Some(u) => job_name + seq!['/'] + u,
        None => random_id,
    }
}

/// Calls `uuid::Uuid::new_v4()` and renders it with `to_string()`.
/// `new_v4` takes 128 random bits and sets the version digit to `4` and the
/// two variant bits to `10`; `Uuid`'s `Display` writes the hyphenated
/// lower-case form, 32 hexadecimal digits grouped 8-4-4-4-12. The other
/// digits are random.
#[verifier::external_body]
fn new_uuid_string() -> (r: String)
    ensures
        is_uuid_text(r@),
{
    uuid::Uuid::new_v4().to_string()
}

/// Calls `chrono::Utc::now().timestamp_micros()`.
/// `Utc::now` reads the system clock (it panics when the clock is before the
/// Unix epoch); any `DateTime<Utc>` that chrono builds lies within its
/// supported years, so the result lies strictly within `MICROS_RANGE` of the
/// epoch. Which instant it is depends on the clock.
#[verifier::external_body]
fn now_micros() -> (r: i64)
    ensures
        -MICROS_RANGE < r < MICROS_RANGE,
{
    chrono::Utc::now().timestamp_micros()
}

/// Builds the JSON value `{}` as `serde_json::Value::Object` of an empty
/// `serde_json::Map`.
#[verifier::external_body]
fn json_empty_object() -> serde_json::Value {
    serde_json::Value::Object(serde_json::Map::new())
}

/// The JSON value `null`, `serde_json::Value::Null`.
#[verifier::external_body]
pub(crate) fn json_null() -> serde_json::Value {
    serde_json::Value::Null
}

/// The id that an envelope gets: for a unique job the worker name, a slash
/// and the unique id; for any other job a fresh random UUID.
pub fn envelope_id(job_name: &String, unique_id: &Option<String>) -> (r: String)
    ensures
        match unique_id {
            Some(u) => r@ == job_name@ + seq!['/'] + u@,
            None => is_uuid_text(r@),
        },
{
    match unique_id {
        Some(u) => {
            let mut id = job_name.clone();
            proof {
                reveal_strlit("/");
            }
            id.append("/");
            id.append(u.as_str());
            assert(id@ =~= job_name@ + seq!['/'] + u@);
            id
        },
        None => new_uuid_string(),
    }
}

/// A unique job's envelope id never equals a random one: it holds a slash,
/// which the text of a UUID does not.
pub proof fn law_unique_and_random_ids_differ(job_name: Seq<char>, unique_id: Seq<char>, random_id: Seq<char>)
    requires
        is_uuid_text(random_id),
    ensures
        spec_envelope_id(job_name, Some(unique_id), random_id) != random_id,
{
    let id = job_name + seq!['/'] + unique_id;
    assert(id[job_name.len() as int] == '/');
    if id.len() == random_id.len() {
        assert(is_uuid_char(random_id[job_name.len() as int]));
    }
}

/// Two jobs of the same worker with the same unique id get the same
/// envelope id, so that storage sees them as one job; with different unique
/// ids they get different envelope ids.
pub proof fn law_unique_ids_identify_jobs(
    job_name: Seq<char>,
    unique_a: Seq<char>,
    unique_b: Seq<char>,
    random_a: Seq<char>,
    random_b: Seq<char>,
)
    ensures
        (spec_envelope_id(job_name, Some(unique_a), random_a) == spec_envelope_id(
            job_name,
            Some(unique_b),
            random_b,
        )) <==> unique_a == unique_b,
{
    let prefix = job_name + seq!['/'];
    let a = prefix + unique_a;
    let b = prefix + unique_b;
    assert(job_name + seq!['/'] + unique_a == a);
    if a == b {
        assert(unique_a =~= a.subrange(prefix.len() as int, a.len() as int));
        assert(unique_b =~= b.subrange(prefix.len() as int, b.len() as int));
    }
}

impl JobEnvelope {
    /// The envelope of a new job for worker `job_name` on `queue`, with the
    /// job's serialized arguments, its unique id if it has one, its conflict
    /// strategy and whether it is resurrected after a crash.
    /// Its creation time is read from the clock, and it is scheduled to run
    /// at once: its scheduled time is its creation time.
    pub fn new(
        queue: String,
        job_name: String,
        args: serde_json::Value,
        unique_id: Option<String>,
        on_conflict: JobConflictStrategy,
        resurrect: bool,
    ) -> (e: JobEnvelope)
        ensures
            e.queue@ == queue@,
            e.job.name@ == job_name@,
            e.job.args == args,
            match unique_id {
                Some(u) => e.id@ == job_name@ + seq!['/'] + u@,
                None => is_uuid_text(e.id@),
            },
            e.meta.id@ == e.id@,
            e.meta.retries == 0,
            e.meta.unique == unique_id is Some,
            e.meta.on_conflict == (if unique_id is Some {
                Some(on_conflict)
            } else {
                None
            }),
            -MICROS_RANGE < e.meta.created_at < MICROS_RANGE,
            -MICROS_RANGE < e.meta.scheduled_at < MICROS_RANGE,
            e.meta.scheduled_at == e.meta.created_at,
            e.meta.state is None,
            e.meta.resurrect == resurrect,
    {
        let id = envelope_id(&job_name, &unique_id);
        let unique = unique_id.is_some();
        let created_at = now_micros();
        let scheduled_at = created_at;
        JobEnvelope {
            id: id.clone(),
            queue,
            job: Job { name: job_name, args },
            meta: JobMeta {
                id,
                retries: 0,
                unique,
                on_conflict: if unique {
                    Some(on_conflict)
                } else {
                    None
                },
                created_at,
                scheduled_at,
                state: None,
                resurrect,
            },
        }
    }

    /// The envelope of a run of a cron worker `name` on `queue`, with the
    /// given id and scheduled time. Cron runs are unique, skip on conflict
    /// and take no arguments (the empty JSON object).
    pub fn new_cron(
        queue: String,
        id: String,
        name: String,
        scheduled_at: i64,
        resurrect: bool,
    ) -> (e: JobEnvelope)
        ensures
            e.id@ == id@,
            e.queue@ == queue@,
            e.job.name@ == name@,
            e.meta.id@ == id@,
            e.meta.retries == 0,
            e.meta.unique,
            e.meta.on_conflict == Some(JobConflictStrategy::Skip),
            -MICROS_RANGE < e.meta.created_at < MICROS_RANGE,
            e.meta.scheduled_at == scheduled_at,
            e.meta.state is None,
            e.meta.resurrect == resurrect,
    {
        let created_at = now_micros();
        JobEnvelope {
            id: id.clone(),
            queue,
            job: Job { name, args: json_empty_object() },
            meta: JobMeta {
                id,
                retries: 0,
                unique: true,
                on_conflict: Some(JobConflictStrategy::Skip),
                created_at,
                scheduled_at,
                state: None,
                resurrect,
            },
        }
    }

    /// The same envelope with one more retry counted. The metadata's id is
    /// set to the envelope's id.
    pub fn with_retries_incremented(self) -> (e: JobEnvelope)
        requires
            self.meta.retries < u32::MAX,
        ensures
            e.id == self.id,
            e.queue == self.queue,
            e.job == self.job,
            e.meta == (JobMeta { id: self.id, retries: (self.meta.retries + 1) as u32, ..self.meta }),
    {
        JobEnvelope {
            id: self.id.clone(),
            queue: self.queue,
            job: self.job,
            meta: JobMeta {
                id: self.id,
                retries: self.meta.retries + 1,
                unique: self.meta.unique,
                on_conflict: self.meta.on_conflict,
                created_at: self.meta.created_at,
                scheduled_at: self.meta.scheduled_at,
                state: self.meta.state,
                resurrect: self.meta.resurrect,
            },
        }
    }
}

/// Division of microseconds into coarser units, rounding towards zero as
/// Rust's integer division does.
pub open spec fn div_toward_zero(a: int, d: int) -> int
    recommends
        d > 0,
{
    if a >= 0 {
        a / d
    } else {
        -((-a) / d)
    }
}

/// The latency of a job scheduled at `scheduled_at` when the clock reads
/// `now`: the time since it was scheduled, or zero if it lies ahead.
pub open spec fn spec_latency_micros(now: int, scheduled_at: int) -> int {
    if now - scheduled_at > 0 {
        now - scheduled_at
    } else {
        0
    }
}

/// Scheduled times for which the latency can be computed for every time
/// the clock may read without overflowing.
pub open spec fn latency_computable(scheduled_at: i64) -> bool {
    -(i64::MAX - MICROS_RANGE) <= scheduled_at <= i64::MAX - MICROS_RANGE
}

/// Whole seconds are whole milliseconds taken by the thousand: converting
/// microseconds to milliseconds and then to seconds gives the same as
/// converting them to seconds directly.
pub proof fn law_time_units_compose(micros: int)
    ensures
        div_toward_zero(div_toward_zero(micros, 1000), 1000) == div_toward_zero(micros, 1_000_000),
{
    if micros >= 0 {
        lemma_div_div(micros);
    } else {
        lemma_div_div(-micros);
    }
}

proof fn lemma_div_div(a: int)
    requires
        a >= 0,
    ensures
        (a / 1000) / 1000 == a / 1_000_000,
{
    assert((a / 1000) / 1000 == a / 1_000_000) by (nonlinear_arith)
        requires
            a >= 0,
    {
        let q = a / 1_000_000;
        let r = a % 1_000_000;
        assert(a == q * 1_000_000 + r);
        assert(a / 1000 == q * 1000 + r / 1000);
    }
}

impl JobMeta {
    pub fn created_at_secs(&self) -> (r: i64)
        ensures
            r == div_toward_zero(self.created_at as int, MICROS_PER_SEC as int),
    {
        self.created_at / MICROS_PER_SEC
    }

    pub fn created_at_millis(&self) -> (r: i64)
        ensures
            r == div_toward_zero(self.created_at as int, MICROS_PER_MILLI as int),
    {
        self.created_at / MICROS_PER_MILLI
    }

    pub fn scheduled_at_millis(&self) -> (r: i64)
        ensures
            r == div_toward_zero(self.scheduled_at as int, MICROS_PER_MILLI as int),
    {
        self.scheduled_at / MICROS_PER_MILLI
    }

    pub fn scheduled_at_secs(&self) -> (r: i64)
        ensures
            r == div_toward_zero(self.scheduled_at as int, MICROS_PER_SEC as int),
    {
        self.scheduled_at / MICROS_PER_SEC
    }

    /// The latency, in microseconds, when the clock reads `now`.
    pub fn latency_micros_at(&self, now: i64) -> (r: i64)
        requires
            i64::MIN <= now - self.scheduled_at <= i64::MAX,
        ensures
            r == spec_latency_micros(now as int, self.scheduled_at as int),
            r >= 0,
    {
        let d = now - self.scheduled_at;
        if d > 0 {
            d
        } else {
            0
        }
    }

    /// The time since the job was scheduled, in microseconds, by the clock;
    /// zero if it is scheduled in the future.
    pub fn latency_micros(&self) -> (r: i64)
        requires
            latency_computable(self.scheduled_at),
        ensures
            r >= 0,
            exists|now: i64|
                -MICROS_RANGE < now < MICROS_RANGE && r == spec_latency_micros(
                    now as int,
                    self.scheduled_at as int,
                ),
    {
        let now = now_micros();
        self.latency_micros_at(now)
    }

    /// The latency in whole seconds.
    pub fn latency_secs(&self) -> (r: i64)
        requires
            latency_computable(self.scheduled_at),
        ensures
            r >= 0,
            exists|now: i64|
                -MICROS_RANGE < now < MICROS_RANGE && r == spec_latency_micros(
                    now as int,
                    self.scheduled_at as int,
                ) / (MICROS_PER_SEC as int),
    {
        self.latency_micros() / MICROS_PER_SEC
    }

    /// The latency in whole milliseconds.
    pub fn latency_millis(&self) -> (r: i64)
        requires
            latency_computable(self.scheduled_at),
        ensures
            r >= 0,
            exists|now: i64|
                -MICROS_RANGE < now < MICROS_RANGE && r == spec_latency_micros(
                    now as int,
                    self.scheduled_at as int,
                ) / (MICROS_PER_MILLI as int),
    {
        self.latency_micros() / MICROS_PER_MILLI
    }

}

} // verus!
