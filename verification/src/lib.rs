//! Verified core of the Oxanus job processing library.
pub mod named_map;
pub mod text;
pub mod stats;
pub mod job_envelope;
pub mod error;
pub mod queue;
pub mod worker;
pub mod worker_registry;
pub mod executor;
pub mod coordinator;
pub mod storage;
pub mod storage_types;
pub mod catalog;
pub mod config;
pub mod dispatcher;
pub mod batch_processor;
pub mod semaphores_map;
pub mod test_helper;
pub mod macro_attributes;
