//! The decisions of a queue's dispatcher: what to do with the result of
//! trying to take a job off the queue, and how long a throttled queue waits.

use vstd::prelude::*;

verus! {

/// What the dispatcher does with the result of trying to take a job.
#[derive(Debug)]
pub enum DispatchAction {
    /// Hand the job, together with its concurrency permit, to a worker.
    Send { job_id: String },
    /// No job was waiting: give the permit back and try again.
    Release,
    /// Storage failed within its tolerance: give the permit back and sleep
    /// for the dispatcher's idle time before trying again.
    ReleaseAndSleep,
}

/// Decides on the result of trying to take a job: `Some(Some(id))` when a
/// job was taken, `Some(None)` when none was waiting, `None` when storage
/// failed and the failure is tolerated.
pub fn dispatch_action(popped: Option<Option<String>>) -> (r: DispatchAction)
    ensures
        match popped {
            Some(Some(id)) => r matches DispatchAction::Send { job_id } && job_id@ == id@,
            Some(None) => r is Release,
            None => r is ReleaseAndSleep,
        },
{
    match popped {
        Some(Some(job_id)) => DispatchAction::Send { job_id },
        Some(None) => DispatchAction::Release,
        None => DispatchAction::ReleaseAndSleep,
    }
}

/// How long, in milliseconds, a throttled queue waits before trying again:
/// as long as the throttler says it stays throttled when that is a
/// non-negative number of milliseconds, the fallback wait otherwise.
pub fn throttle_wait_ms(throttled_for: Option<i64>, fallback_ms: u64) -> (r: u64)
    ensures
        r == match throttled_for {
            Some(ms) => if ms >= 0 {
                ms as u64
            } else {
                fallback_ms
            },
            None => fallback_ms,
        },
{
    match throttled_for {
        Some(ms) => if ms >= 0 {
            ms as u64
        } else {
            fallback_ms
        },
        None => fallback_ms,
    }
}

} // verus!
