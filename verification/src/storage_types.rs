//! Plain records used to list jobs and describe registered components.

use vstd::prelude::*;

verus! {

/// Options for listing jobs in a queue.
#[derive(Debug, Clone, Copy, PartialEq, Eq, Structural)]
pub struct QueueListOpts {
    /// Maximum number of jobs to return.
    pub count: usize,
    /// Number of jobs to skip from the start.
    pub offset: usize,
}

/// Information about a registered queue.
#[derive(Debug, Clone)]
pub struct QueueInfo {
    /// The queue key or prefix.
    pub key: String,
    /// Whether this is a dynamic queue.
    pub dynamic: bool,
    /// The concurrency limit for this queue.
    pub concurrency: usize,
    /// Throttle configuration, if any.
    pub throttle: Option<QueueThrottleInfo>,
}

/// Throttle configuration for a queue.
#[derive(Debug, Clone, Copy, PartialEq, Eq, Structural)]
pub struct QueueThrottleInfo {
    /// Throttle window in milliseconds.
    pub window_ms: i64,
    /// Maximum number of jobs allowed within the window.
    pub limit: u64,
}

/// Information about a registered worker.
#[derive(Debug, Clone)]
pub struct WorkerInfo {
    /// The worker name (Rust type path).
    pub name: String,
}

} // verus!
