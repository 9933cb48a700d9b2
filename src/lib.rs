//! A small asynchronous task runtime, as a set of verified state machines.
//!
//! Each module holds the decisions of one part of the runtime: the job queue that
//! feeds the workers, the bookkeeping of the worker pool, the poll slot of a task,
//! the per-direction readiness of an I/O handle, the table of registered sources
//! of the reactor, and the process-wide registration slot. Threads, locks and the
//! operating system's readiness notifier drive these machines from outside.
use vstd::prelude::*;

pub mod builder;
pub mod event;
pub mod io;
pub mod pool;
pub mod queue;
pub mod reactor;
pub mod slot;
pub mod task;

pub use crate::builder::AsyncRuntimeBuilder;
pub use crate::event::Event;

verus! {

/// A builder for a runtime, with the worker count left at its default.
pub fn builder() -> (r: AsyncRuntimeBuilder)
    ensures
        r.thread_count() == None::<usize>,
{
    AsyncRuntimeBuilder::new()
}

} // verus!
