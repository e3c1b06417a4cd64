//! How a run schedules its evaluations.
use vstd::prelude::*;

verus! {

/// How many evaluations may run at once.
#[derive(Debug, Clone, Copy, PartialEq, Eq)]
pub struct NumThreads(pub usize);

/// Relies on `num_cpus::get`, which its documentation says always returns at
/// least 1.
#[verifier::external_body]
fn available_cpus() -> (r: usize)
    ensures
        r >= 1,
{
    num_cpus::get()
}

impl NumThreads {
    pub fn new(num: usize) -> (r: Self)
        ensures
            r.0 == num,
    {
        Self(num)
    }

    pub fn get(&self) -> (r: usize)
        ensures
            r == self.0,
    {
        self.0
    }
}

impl Default for NumThreads {
    /// One evaluation per available CPU.
    fn default() -> (r: Self)
        ensures
            r.0 >= 1,
    {
        Self(available_cpus())
    }
}

impl From<usize> for NumThreads {
    fn from(value: usize) -> (r: Self) {
        Self(value)
    }
}

impl vstd::std_specs::convert::FromSpecImpl<usize> for NumThreads {
    open spec fn obeys_from_spec() -> bool {
        true
    }

    open spec fn from_spec(v: usize) -> Self {
        NumThreads(v)
    }
}

/// The resolved run settings: the concurrency bound and the per-file
/// deadline in milliseconds, 0 for none.
#[derive(Debug, Clone, Copy, PartialEq, Eq)]
pub struct Config {
    pub num_threads: NumThreads,
    pub timeout: u64,
}

impl Default for Config {
    fn default() -> (r: Self)
        ensures
            r.num_threads.0 >= 1,
            r.timeout == 0,
    {
        Config { num_threads: NumThreads::default(), timeout: 0 }
    }
}

} // verus!
