use asynk::pool::{JoinError, PoolState};
use asynk::queue::{Dequeue, JobQueue};
use asynk::task::{join_outcome, TaskSlot};
use std::cell::Cell;
use std::rc::Rc;

/// Runs every queued job on the calling thread until the queue reports `Finished`.
fn drain(q: &mut JobQueue<Box<dyn FnOnce()>>) -> usize {
    let mut ran = 0;
    loop {
        match q.try_next() {
            Dequeue::Job(job) => {
                job();
                ran += 1;
            }
            Dequeue::Empty => panic!("queue must be finished before it is drained"),
            Dequeue::Finished => return ran,
        }
    }
}

#[test]
fn spawn_return_resolves_to_value() {
    let pool = PoolState::new(2);
    assert_eq!(pool.live_workers().len(), 2);
    let mut slot = TaskSlot::new(1u32);
    let value = slot.begin_poll();
    assert_eq!(value, Some(1));
    let mut delivered = None;
    if slot.complete() {
        delivered = value;
    }
    assert_eq!(join_outcome(delivered), Ok(1));
}

#[test]
fn nested_spawn_value_reaches_outer() {
    let mut inner = TaskSlot::new(7u32);
    let mut outer = TaskSlot::new(0u32);
    // the outer task polls first and suspends on the inner handle
    let o = outer.begin_poll().unwrap();
    outer.suspend(o);
    let v = inner.begin_poll();
    assert!(inner.complete());
    // the inner completion wakes the outer task, whose next poll is granted
    assert!(outer.begin_poll().is_some());
    assert!(outer.complete());
    assert_eq!(join_outcome(v), Ok(7));
}

#[test]
fn fan_out_counter_reaches_total() {
    let counter = Rc::new(Cell::new(0u32));
    let mut q: JobQueue<Box<dyn FnOnce()>> = JobQueue::new();
    for _ in 0..10_000 {
        let c = Rc::clone(&counter);
        q.add(Box::new(move || c.set(c.get() + 1)));
    }
    q.finish_ntf();
    assert_eq!(drain(&mut q), 10_000);
    assert_eq!(counter.get(), 10_000);
}

#[test]
fn worker_panic_recovery_reports_one() {
    let mut pool = PoolState::new(2);
    let results = Rc::new(std::cell::RefCell::new(Vec::new()));
    let mut q: JobQueue<Box<dyn FnOnce()>> = JobQueue::new();
    // worker 0 panics on the first job and is replaced
    assert_eq!(pool.on_worker_panic(0), Some(2));
    assert_eq!(pool.live_workers(), vec![1, 2]);
    for i in 0..1000usize {
        let r = Rc::clone(&results);
        q.add(Box::new(move || r.borrow_mut().push(i)));
    }
    q.finish_ntf();
    pool.begin_join();
    assert_eq!(drain(&mut q), 1000);
    assert_eq!(*results.borrow(), (0..1000).collect::<Vec<usize>>());
    assert_eq!(pool.finish_join(), Err(JoinError(1)));
}
