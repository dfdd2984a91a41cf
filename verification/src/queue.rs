//! Queues: how they are configured and identified.

use vstd::prelude::*;
use crate::named_map::str_equal;

verus! {

/// Throttling of a queue: at most `limit` jobs per window of `window_ms`.
#[derive(Debug, Clone, Copy, PartialEq, Eq, Structural)]
pub struct QueueThrottle {
    pub window_ms: i64,
    pub limit: u64,
}

/// Whether a queue has one fixed key or is a family of queues sharing a prefix.
#[derive(Debug)]
pub enum QueueKind {
    /// A single queue with a fixed key.
    Static { key: String },
    /// All queues whose keys start with `prefix`; the set of such queues is
    /// looked up again every `sleep_period_ms` milliseconds.
    Dynamic { prefix: String, sleep_period_ms: u64 },
}

/// The configuration of a queue.
#[derive(Debug)]
pub struct QueueConfig {
    pub kind: QueueKind,
    pub concurrency: usize,
    pub throttle: Option<QueueThrottle>,
}

/// The abstract value of a [`QueueKind`].
pub enum QueueKindView {
    Static { key: Seq<char> },
    Dynamic { prefix: Seq<char>, sleep_period_ms: u64 },
}

/// The abstract value of a [`QueueConfig`].
pub struct QueueConfigView {
    pub kind: QueueKindView,
    pub concurrency: usize,
    pub throttle: Option<QueueThrottle>,
}

impl View for QueueKind {
    type V = QueueKindView;

    open spec fn view(&self) -> QueueKindView {
        match self {
            QueueKind::Static { key } => QueueKindView::Static { key: key@ },
            QueueKind::Dynamic { prefix, sleep_period_ms } => QueueKindView::Dynamic {
                prefix: prefix@,
                sleep_period_ms: *sleep_period_ms,
            },
        }
    }
}

impl View for QueueConfig {
    type V = QueueConfigView;

    open spec fn view(&self) -> QueueConfigView {
        QueueConfigView { kind: self.kind@, concurrency: self.concurrency, throttle: self.throttle }
    }
}

impl Clone for QueueKind {
    fn clone(&self) -> (r: Self)
        ensures
            r@ == self@,
    {
        match self {
            QueueKind::Static { key } => QueueKind::Static { key: key.clone() },
            QueueKind::Dynamic { prefix, sleep_period_ms } => QueueKind::Dynamic {
                prefix: prefix.clone(),
                sleep_period_ms: *sleep_period_ms,
            },
        }
    }
}

impl Clone for QueueConfig {
    fn clone(&self) -> (r: Self)
        ensures
            r@ == self@,
    {
        QueueConfig { kind: self.kind.clone(), concurrency: self.concurrency, throttle: self.throttle }
    }
}

/// The key pattern under which the queues of a dynamic family are looked up:
/// the prefix followed by `*`.
pub open spec fn spec_dynamic_pattern(prefix: Seq<char>) -> Seq<char> {
    prefix + seq!['*']
}

impl QueueConfig {
    /// The key of a static queue; `None` for a dynamic queue.
    pub fn static_key(&self) -> (r: Option<String>)
        ensures
            match self.kind@ {
                QueueKindView::Static { key } => r is Some && r->0@ == key,
                QueueKindView::Dynamic { .. } => r is None,
            },
    {
        match &self.kind {
            QueueKind::Static { key } => Some(key.clone()),
            QueueKind::Dynamic { .. } => None,
        }
    }

    /// The key pattern of a dynamic queue family; `None` for a static queue.
    pub fn dynamic_pattern(&self) -> (r: Option<String>)
        ensures
            match self.kind@ {
                QueueKindView::Static { .. } => r is None,
                QueueKindView::Dynamic { prefix, .. } => r is Some && r->0@ == spec_dynamic_pattern(
                    prefix,
                ),
            },
    {
        match &self.kind {
            QueueKind::Static { .. } => None,
            QueueKind::Dynamic { prefix, .. } => {
                let mut p = prefix.clone();
                proof {
                    reveal_strlit("*");
                }
                p.append("*");
                assert(p@ =~= spec_dynamic_pattern(prefix@));
                Some(p)
            },
        }
    }

    /// Whether two configurations are the same.
    pub fn same_as(&self, other: &QueueConfig) -> (r: bool)
        ensures
            r == (self@ == other@),
    {
        let same_kind = match &self.kind {
            QueueKind::Static { key: a } => match &other.kind {
                QueueKind::Static { key: b } => str_equal(a.as_str(), b.as_str()),
                QueueKind::Dynamic { .. } => false,
            },
            QueueKind::Dynamic { prefix: a, sleep_period_ms: sa } => match &other.kind {
                QueueKind::Static { .. } => false,
                QueueKind::Dynamic { prefix: b, sleep_period_ms: sb } => str_equal(a.as_str(), b.as_str()) && *sa == *sb,
            },
        };
        let same_throttle = match (self.throttle, other.throttle) {
            (Some(a), Some(b)) => a.window_ms == b.window_ms && a.limit == b.limit,
            (None, None) => true,
            _ => false,
        };
        assert(same_kind == (self.kind@ == other.kind@));
        assert(same_throttle == (self.throttle == other.throttle));
        same_kind && self.concurrency == other.concurrency && same_throttle
    }
}

/// A queue type of the application: its configuration and the key of a
/// queue value.
pub trait Queue {
    /// The configuration shared by all values of the queue type.
    fn to_config() -> QueueConfig where Self: Sized;

    /// The configuration of this queue.
    fn config(&self) -> QueueConfig;

    /// The key of this queue.
    fn key(&self) -> String;
}

} // verus!
