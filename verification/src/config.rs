//! Run configuration: how many transactions, across how many workers.

use vstd::prelude::*;

verus! {

/// Configuration of one pipeline run.  The cache directory is the
/// caller's concern; the library only computes over counts.
#[derive(Clone, Copy, Debug, PartialEq, Eq, Structural)]
pub struct Config {
    /// How many execution transactions the final block must contain.
    pub transaction_count: usize,
    /// The parallelism degree; at least one.
    pub worker_count: usize,
}

impl Config {
    /// A configuration is well formed when it names at least one worker.
    pub open spec fn wf(self) -> bool {
        self.worker_count >= 1
    }
}

/// Relies on num_cpus::get: the number of available logical CPUs of the
/// current system, which is always at least one.
#[verifier::external_body]
pub fn available_workers() -> (n: usize)
    ensures
        1 <= n,
{
    num_cpus::get()
}

/// Builds a configuration; a worker count of `None` defaults to the
/// available hardware parallelism.
pub fn config_for(transaction_count: usize, worker_count: Option<usize>) -> (c: Config)
    requires
        worker_count matches Some(w) ==> w >= 1,
    ensures
        c.wf(),
        c.transaction_count == transaction_count,
        worker_count matches Some(w) ==> c.worker_count == w,
{
    let workers = match worker_count {
        Some(w) => w,
        None => available_workers(),
    };
    Config { transaction_count, worker_count: workers }
}

} // verus!
