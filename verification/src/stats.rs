//! Worker processes as they are reported for monitoring.

use vstd::prelude::*;
use crate::text::{decimal, push_decimal, lemma_decimal_injective};

verus! {

/// Information about an Oxanus worker process.
#[derive(Debug, Clone)]
pub struct Process {
    /// The hostname where the process is running.
    pub hostname: String,
    /// The process ID.
    pub pid: u32,
    /// Last heartbeat timestamp (Unix timestamp).
    pub heartbeat_at: i64,
    /// Process start timestamp (Unix timestamp).
    pub started_at: i64,
}

/// The identifier of a process on `hostname` with process ID `pid`:
/// the hostname, a hyphen, and the decimal process ID.
pub open spec fn spec_process_id(hostname: Seq<char>, pid: nat) -> Seq<char> {
    hostname + seq!['-'] + decimal(pid)
}

/// Processes on the same host with different process IDs have different
/// identifiers.
pub proof fn law_process_ids_distinguish_pids(hostname: Seq<char>, a: nat, b: nat)
    requires
        a != b,
    ensures
        spec_process_id(hostname, a) != spec_process_id(hostname, b),
{
    let prefix = hostname + seq!['-'];
    if spec_process_id(hostname, a) == spec_process_id(hostname, b) {
        let x = prefix + decimal(a);
        let y = prefix + decimal(b);
        assert(decimal(a) =~= x.subrange(prefix.len() as int, x.len() as int));
        assert(decimal(b) =~= y.subrange(prefix.len() as int, y.len() as int));
        lemma_decimal_injective(a, b);
    }
}

impl Process {
    /// Returns a unique identifier for the process.
    pub fn id(&self) -> (r: String)
        ensures
            r@ == spec_process_id(self.hostname@, self.pid as nat),
    {
        let mut r = self.hostname.clone();
        proof {
            reveal_strlit("-");
        }
        r.append("-");
        push_decimal(&mut r, self.pid as u64);
        assert(r@ =~= spec_process_id(self.hostname@, self.pid as nat));
        r
    }
}

} // verus!
