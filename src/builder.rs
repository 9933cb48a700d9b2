//! Configuration of a runtime before it is built.
use vstd::prelude::*;

verus! {

/// Relies on `num_cpus::get`, which documents that it returns at least one.
#[verifier::external_body]
fn logical_cpu_count() -> (r: usize)
    ensures
        r >= 1,
{
    num_cpus::get()
}

/// Collects the settings of a runtime: for now, its number of worker threads.
#[derive(Debug)]
pub struct AsyncRuntimeBuilder {
    thread_count: Option<usize>,
}

impl AsyncRuntimeBuilder {
    /// A worker count that was set is never zero.
    #[verifier::type_invariant]
    spec fn inv(self) -> bool {
        self.thread_count matches Some(n) ==> n >= 1
    }

    /// The worker count that was set, if any.
    pub closed spec fn thread_count(&self) -> Option<usize> {
        self.thread_count
    }

    /// A builder with no worker count set.
    pub fn new() -> (r: AsyncRuntimeBuilder)
        ensures
            r.thread_count() == None::<usize>,
    {
        AsyncRuntimeBuilder { thread_count: None }
    }

    /// Sets the number of worker threads; zero stands for the number of logical CPUs.
    pub fn worker_threads(self, val: usize) -> (r: AsyncRuntimeBuilder)
        ensures
            r.thread_count() is Some,
            r.thread_count().unwrap() >= 1,
            val > 0 ==> r.thread_count() == Some(val),
    {
        let val = if val == 0 {
            Self::default_thread_count()
        } else {
            val
        };
        AsyncRuntimeBuilder { thread_count: Some(val) }
    }

    /// The number of worker threads that a runtime built now gets: the count that
    /// was set, else the number of logical CPUs.
    pub fn resolved_thread_count(&self) -> (r: usize)
        ensures
            r >= 1,
            self.thread_count() is Some ==> r == self.thread_count().unwrap(),
    {
        proof {
            use_type_invariant(self);
        }
        match self.thread_count {
            Some(n) => n,
            None => Self::default_thread_count(),
        }
    }

    fn default_thread_count() -> (r: usize)
        ensures
            r >= 1,
    {
        logical_cpu_count()
    }
}

} // verus!
