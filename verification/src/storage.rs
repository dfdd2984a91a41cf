//! Storage: the namespace that the stored jobs of one application live in,
//! and how a job is enqueued.

use vstd::prelude::*;

verus! {

/// The handle to the job storage of one namespace.
pub struct Storage {
    namespace: String,
}

/// Builds a [`Storage`].
pub struct StorageBuilder {
    namespace: Option<String>,
}

impl Clone for Storage {
    fn clone(&self) -> (r: Self)
        ensures
            r.namespace_view() == self.namespace_view(),
    {
        Storage { namespace: self.namespace.clone() }
    }
}

impl Storage {
    /// The namespace of the storage.
    pub closed spec fn namespace_view(&self) -> Seq<char> {
        self.namespace@
    }

    /// Creates a new [`StorageBuilder`] for configuring and building a Storage instance.
    pub fn builder() -> (b: StorageBuilder)
        ensures
            b.namespace_choice() is None,
    {
        StorageBuilder::new()
    }

    /// Returns the namespace this storage instance is using.
    pub fn namespace(&self) -> (r: &str)
        ensures
            r@ == self.namespace_view(),
    {
        self.namespace.as_str()
    }
}

impl StorageBuilder {
    /// The namespace chosen so far, if one was.
    pub closed spec fn namespace_choice(&self) -> Option<Seq<char>> {
        match self.namespace {
            Some(n) => Some(n@),
            None => None,
        }
    }

    /// A builder with no namespace chosen.
    pub fn new() -> (b: Self)
        ensures
            b.namespace_choice() is None,
    {
        StorageBuilder { namespace: None }
    }

    /// Chooses the namespace.
    pub fn namespace(self, namespace: String) -> (b: Self)
        ensures
            b.namespace_choice() == Some(namespace@),
    {
        StorageBuilder { namespace: Some(namespace) }
    }

    /// The storage of the chosen namespace; the empty namespace when none
    /// was chosen.
    pub fn build(self) -> (s: Storage)
        ensures
            s.namespace_view() == match self.namespace_choice() {
                Some(n) => n,
                None => Seq::<char>::empty(),
            },
    {
        match self.namespace {
            Some(namespace) => Storage { namespace },
            None => Storage { namespace: String::new() },
        }
    }
}

/// When an enqueued job becomes runnable.
#[derive(Debug, Clone, Copy, PartialEq, Eq, Structural)]
pub enum EnqueueTiming {
    /// It is pushed onto its queue at once.
    Immediate,
    /// It is scheduled to run after `seconds`.
    Delayed { seconds: u64 },
}

/// A job enqueued with a delay of zero seconds runs at once; any other
/// delay schedules it.
pub fn enqueue_timing(delay: u64) -> (r: EnqueueTiming)
    ensures
        delay == 0 ==> r == EnqueueTiming::Immediate,
        delay > 0 ==> r == (EnqueueTiming::Delayed { seconds: delay }),
{
    if delay > 0 {
        EnqueueTiming::Delayed { seconds: delay }
    } else {
        EnqueueTiming::Immediate
    }
}

} // verus!
