//! Batch processors: workers that process several jobs at once.

use vstd::prelude::*;
use crate::worker::{DEFAULT_MAX_RETRIES, MAX_BACKOFF_RETRIES, default_retry_delay, spec_default_retry_delay};

verus! {

/// How a batch processor is registered: the worker whose jobs it gathers,
/// the batch size, how long a partial batch waits, and how it is built
/// from the gathered jobs.
pub struct BatchProcessorConfig<F> {
    pub worker_name: String,
    pub batch_size: usize,
    pub batch_linger_ms: u64,
    pub factory: F,
}

/// A batch processor: its retry policy and how it gathers batches.
pub trait BatchProcessor {
    /// How often a failed batch is retried before its jobs are declared dead.
    fn max_retries(&self) -> (r: u32)
        default_ensures
            r == DEFAULT_MAX_RETRIES,
    {
        DEFAULT_MAX_RETRIES
    }

    /// The delay, in seconds, before a job of a failed batch is retried
    /// after it failed `retries` times already.
    fn retry_delay(&self, retries: u32) -> (d: u64)
        requires
            retries <= MAX_BACKOFF_RETRIES,
        default_ensures
            d == spec_default_retry_delay(retries as nat),
    {
        default_retry_delay(retries)
    }

    /// How many jobs make a full batch.
    fn batch_size() -> usize where Self: Sized;

    /// How long, in milliseconds, a partial batch waits for more jobs.
    fn batch_linger_ms() -> u64 where Self: Sized;
}

} // verus!
