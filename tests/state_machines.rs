use asynk::builder;
use asynk::event::{Event, AIO, ERROR, LIO, PRIORITY, READABLE, READ_CLOSED, WRITABLE, WRITE_CLOSED};
use asynk::io::{AttemptOutcome, Direction, IoReadiness, IoStep};
use asynk::pool::{JoinError as PoolJoinError, PoolState};
use asynk::queue::{Dequeue, JobQueue};
use asynk::reactor::{ReactorError, SourceTable};
use asynk::slot::{RuntimeSlot, SlotError};
use asynk::task::{join_outcome, JoinError, TaskSlot};
use asynk::AsyncRuntimeBuilder;

fn job(d: Dequeue<u32>) -> Option<u32> {
    match d {
        Dequeue::Job(j) => Some(j),
        _ => None,
    }
}

#[test]
fn event_from_readiness_sets_one_bit_per_condition() {
    let e = Event::from_readiness(true, false, false, false, false, false, false, false);
    assert_eq!(e.bits(), READABLE);
    let e = Event::from_readiness(false, true, true, false, false, false, false, false);
    assert_eq!(e.bits(), WRITABLE | ERROR);
    let all = Event::from_readiness(true, true, true, true, true, true, true, true);
    assert_eq!(all.bits(), 0xff);
    assert_eq!(
        READABLE | WRITABLE | ERROR | READ_CLOSED | WRITE_CLOSED | PRIORITY | AIO | LIO,
        0xff
    );
    let none = Event::from_readiness(false, false, false, false, false, false, false, false);
    assert_eq!(none, Event::empty());
    let closed = Event::from_readiness(false, false, false, true, true, false, false, true);
    assert_eq!(closed.bits(), READ_CLOSED | WRITE_CLOSED | LIO);
}

#[test]
fn event_direction_queries() {
    let r = Event::from_bits_retain(READABLE);
    let w = Event::from_bits_retain(WRITABLE);
    let rw = r.union(w);
    assert!(r.is_readable() && !r.is_writable());
    assert!(w.is_writable() && !w.is_readable());
    // the direction queries ask for the exact flag; a combined event is neither
    assert!(!rw.is_readable() && !rw.is_writable());
    assert!(!Event::from_bits_retain(READABLE | ERROR).is_readable());
    assert!(rw.contains(r) && rw.contains(w) && !r.contains(rw));
    assert_eq!(rw.bits(), 3);
    assert!(!Event::empty().is_readable());
    assert_eq!(Event::from_bits_retain(5), Event::from_bits_retain(5));
    assert_ne!(r, w);
}

#[test]
fn builder_worker_threads() {
    assert_eq!(builder().worker_threads(2).resolved_thread_count(), 2);
    assert_eq!(AsyncRuntimeBuilder::new().worker_threads(7).resolved_thread_count(), 7);
    let cpus = num_cpus::get();
    assert_eq!(builder().worker_threads(0).resolved_thread_count(), cpus);
    assert_eq!(builder().resolved_thread_count(), cpus);
    assert!(cpus >= 1);
}

#[test]
fn queue_is_first_in_first_out() {
    let mut q: JobQueue<u32> = JobQueue::new();
    assert!(matches!(q.try_next(), Dequeue::Empty));
    for i in 0..1000u32 {
        q.add(i);
    }
    assert_eq!(q.len(), 1000);
    for i in 0..1000u32 {
        assert_eq!(job(q.try_next()), Some(i));
    }
    assert!(matches!(q.try_next(), Dequeue::Empty));
}

#[test]
fn finished_queue_drains_then_stops() {
    let mut q: JobQueue<u32> = JobQueue::new();
    q.add(1);
    q.add(2);
    q.finish_ntf();
    assert!(q.is_finished());
    q.add(3);
    assert_eq!(q.len(), 2);
    assert_eq!(job(q.try_next()), Some(1));
    assert_eq!(job(q.try_next()), Some(2));
    assert!(matches!(q.try_next(), Dequeue::Finished));
    assert!(matches!(q.try_next(), Dequeue::Finished));
}

#[test]
fn task_slot_polls_once_at_a_time() {
    let mut slot = TaskSlot::new(10u32);
    assert_eq!(slot.begin_poll(), Some(10));
    // a second worker finds the slot empty while the first polls
    assert_eq!(slot.begin_poll(), None);
    slot.suspend(11);
    assert_eq!(slot.begin_poll(), Some(11));
    assert!(slot.complete());
    assert!(slot.is_done());
    // later wakes find nothing to poll, and the callback is not owed again
    assert_eq!(slot.begin_poll(), None);
    assert!(!slot.complete());
    slot.suspend(12);
    assert!(slot.is_done());
    assert_eq!(slot.begin_poll(), None);
}

#[test]
fn task_slot_complete_outside_poll() {
    let mut slot = TaskSlot::new(1u8);
    assert!(!slot.complete());
    assert!(!slot.is_done());
    assert_eq!(slot.begin_poll(), Some(1));
}

#[test]
fn join_outcome_maps_dropped_result() {
    assert_eq!(join_outcome(Some(1)), Ok(1));
    assert_eq!(join_outcome(Some(7)), Ok(7));
    assert_eq!(join_outcome::<u32>(None), Err(JoinError));
}

#[test]
fn pool_replaces_panicked_worker() {
    let mut p = PoolState::new(2);
    assert_eq!(p.live_workers(), vec![0, 1]);
    assert_eq!(p.on_worker_panic(0), Some(2));
    assert_eq!(p.live_workers(), vec![1, 2]);
    assert_eq!(p.panicked_count(), 1);
    // an id that is not live is counted, not replaced
    assert_eq!(p.on_worker_panic(0), None);
    assert_eq!(p.live_workers().len(), 2);
    assert_eq!(p.panicked_count(), 2);
}

#[test]
fn pool_join_reports_panics() {
    let mut p = PoolState::new(4);
    assert_eq!(p.on_worker_panic(3), Some(4));
    p.begin_join();
    assert!(p.is_joining());
    assert_eq!(p.finish_join(), Err(PoolJoinError(1)));
    assert!(p.live_workers().is_empty());
    assert_eq!(p.finish_join(), Ok(()));
}

#[test]
fn pool_join_without_panic() {
    let mut p = PoolState::new(3);
    p.begin_join();
    assert_eq!(p.on_worker_panic(1), None);
    assert_eq!(p.live_workers(), vec![0, 1, 2]);
    assert_eq!(p.finish_join(), Err(PoolJoinError(1)));
    let mut q = PoolState::new(1);
    q.begin_join();
    assert_eq!(q.finish_join(), Ok(()));
}

#[test]
fn readiness_read_cycle() {
    let mut s = IoReadiness::new();
    assert_eq!(s.next_step(Direction::Read), IoStep::Drain);
    s.on_event(Event::from_bits_retain(WRITABLE));
    assert_eq!(s.next_step(Direction::Read), IoStep::Drain);
    assert_eq!(s.next_step(Direction::Write), IoStep::Attempt);
    s.on_event(Event::from_bits_retain(READABLE));
    assert_eq!(s.next_step(Direction::Read), IoStep::Attempt);
    assert!(!s.after_attempt(Direction::Read, AttemptOutcome::Done));
    assert_eq!(s.next_step(Direction::Read), IoStep::Attempt);
    assert!(s.after_attempt(Direction::Read, AttemptOutcome::WouldBlock));
    assert_eq!(s.next_step(Direction::Read), IoStep::Drain);
    assert!(s.is_armed(Direction::Write));
    assert!(!s.after_attempt(Direction::Write, AttemptOutcome::Failed));
    assert!(s.is_armed(Direction::Write));
}

#[test]
fn readiness_event_with_both_directions() {
    let mut s = IoReadiness::new();
    s.on_event(Event::from_bits_retain(READABLE | WRITABLE | ERROR));
    assert!(s.is_armed(Direction::Read));
    assert!(s.is_armed(Direction::Write));
    s.on_event(Event::from_bits_retain(ERROR));
    assert!(s.is_armed(Direction::Read));
}

#[test]
fn slot_registers_once() {
    let mut slot: RuntimeSlot<u32> = RuntimeSlot::new();
    assert_eq!(slot.get(), Err(SlotError::NotSet));
    assert_eq!(slot.check_terminated(), Ok(()));
    assert_eq!(slot.register(5), Ok(()));
    assert_eq!(slot.register(6), Err(SlotError::AlreadySet));
    assert_eq!(slot.get(), Ok(&5));
    slot.terminate();
    assert_eq!(slot.get(), Err(SlotError::Terminated));
    assert_eq!(slot.check_terminated(), Err(SlotError::Terminated));
    let mut fresh: RuntimeSlot<u32> = RuntimeSlot::new();
    fresh.terminate();
    assert_eq!(fresh.register(1), Err(SlotError::Terminated));
}

#[test]
fn source_table_routes_events() {
    let mut table = SourceTable::new();
    let (a, mut rx_a) = match table.register() {
        Ok(v) => v,
        Err(ReactorError::SlabQueueFull) => panic!("slab full"),
        Err(ReactorError::Io(e)) => panic!("{e}"),
    };
    let (b, mut rx_b) = table.register().unwrap_or_else(|_| panic!("register"));
    assert_ne!(a, b);
    assert!(table.contains(a) && table.contains(b));
    let unknown = a.wrapping_add(b).wrapping_add(12345);
    let ev = Event::from_bits_retain(READABLE);
    let routed = table.dispatch(&vec![(a, ev), (unknown, ev), (b, Event::from_bits_retain(WRITABLE))]);
    assert_eq!(routed, vec![true, false, true]);
    assert_eq!(rx_a.try_next().unwrap(), Some(ev));
    assert_eq!(rx_b.try_next().unwrap(), Some(Event::from_bits_retain(WRITABLE)));
    assert!(rx_a.try_next().is_err());
    assert!(table.deregister(a));
    assert!(!table.contains(a));
    assert!(!table.deregister(a));
    assert_eq!(table.dispatch(&vec![(a, ev)]), vec![false]);
    // the channel of a deregistered source is closed
    assert_eq!(rx_a.try_next().unwrap(), None);
    assert!(table.contains(b));
}

#[test]
fn deregister_of_unknown_token_keeps_tokens_unique() {
    let mut table = SourceTable::new();
    let (a, _rx_a) = table.register().unwrap_or_else(|_| panic!("register"));
    assert!(!table.deregister(a + 1));
    assert!(!table.deregister(a + 2));
    let (b, _rx_b) = table.register().unwrap_or_else(|_| panic!("register"));
    let (c, _rx_c) = table.register().unwrap_or_else(|_| panic!("register"));
    assert!(a != b && b != c && a != c);
    assert!(table.contains(a) && table.contains(b) && table.contains(c));
}

#[test]
fn replacement_worker_gets_a_new_id() {
    let mut p = PoolState::new(3);
    let r = p.on_worker_panic(1);
    assert_eq!(r, Some(3));
    assert_ne!(r, Some(1));
    assert!(!p.live_workers().contains(&1));
    assert_eq!(p.live_workers().len(), 3);
}
