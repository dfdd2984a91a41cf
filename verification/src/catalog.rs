//! The catalog of registered components, and the state that the web UI's
//! handlers share.

use vstd::prelude::*;
use crate::storage::Storage;
use crate::storage_types::{QueueInfo, WorkerInfo};

verus! {

/// Catalog of all registered workers and queues.
#[derive(Debug, Clone)]
pub struct Catalog {
    pub workers: Vec<WorkerInfo>,
    pub cron_workers: Vec<CronWorkerInfo>,
    pub queues: Vec<QueueInfo>,
}

/// Information about a registered cron worker.
#[derive(Debug, Clone)]
pub struct CronWorkerInfo {
    pub name: String,
    pub schedule: cron::Schedule,
    pub queue_key: String,
    /// When the worker runs next, in microseconds since the Unix epoch.
    pub next_run_micros: Option<i64>,
}

/// The state shared by the handlers of the web UI.
#[derive(Clone)]
pub struct OxanusWebState {
    pub storage: Storage,
    pub catalog: Catalog,
    pub base_path: String,
}

} // verus!
