//! The poll slot of a task: the protocol that keeps polls of one task apart and
//! runs its ready callback once. The slot is meant to sit behind the task's lock.
use crate::queue::{
    add_spec, finish_spec, lemma_added_job_is_handed_out, next_n_spec, next_spec, Dequeue,
};
use vstd::prelude::*;

verus! {

/// Awaiting a spawned task failed: its result was dropped before it was sent.
#[derive(Clone, Copy, Debug, PartialEq, Eq, Structural)]
pub struct JoinError;

/// The result of awaiting a spawned task, from what its result channel delivered:
/// the value, or nothing when the sending side was dropped.
pub fn join_outcome<T>(received: Option<T>) -> (r: Result<T, JoinError>)
    ensures
        received is Some ==> r == Ok::<T, JoinError>(received.unwrap()),
        received is None ==> r == Err::<T, JoinError>(JoinError),
{
    match received {
        Some(v) => Ok(v),
        None => Err(JoinError),
    }
}

/// Where a task stands in its life.
pub enum TaskPhase {
    /// Its state machine waits in the slot for the next poll.
    Idle,
    /// A worker has taken the state machine out and is polling it.
    Polling,
    /// The state machine completed; the slot stays empty for good.
    Done,
}

/// What happens to a slot.
pub enum TaskEvent {
    /// A worker asks for the state machine, to poll it.
    Begin,
    /// The poll returned `Pending`; the state machine goes back.
    Suspend,
    /// The poll returned `Ready`.
    Complete,
}

/// One step of the protocol: the next phase, and whether the step hands out the
/// state machine (for `Begin`) or owes the ready callback (for `Complete`).
pub open spec fn task_step(p: TaskPhase, e: TaskEvent) -> (TaskPhase, bool) {
    match (p, e) {
        (TaskPhase::Idle, TaskEvent::Begin) => (TaskPhase::Polling, true),
        (TaskPhase::Polling, TaskEvent::Suspend) => (TaskPhase::Idle, false),
        (TaskPhase::Polling, TaskEvent::Complete) => (TaskPhase::Done, true),
        _ => (p, false),
    }
}

/// The polls in progress in a phase.
pub open spec fn in_flight(p: TaskPhase) -> nat {
    if p == TaskPhase::Polling {
        1
    } else {
        0
    }
}

/// A run of events from phase `p`: the final phase, the polls begun, the polls
/// ended (suspended or completed), and the ready callbacks owed.
pub open spec fn task_run(p: TaskPhase, events: Seq<TaskEvent>) -> (TaskPhase, nat, nat, nat)
    decreases events.len(),
{
    if events.len() == 0 {
        (p, 0, 0, 0)
    } else {
        let e = events[0];
        let (p1, act) = task_step(p, e);
        let (pn, b, d, c) = task_run(p1, events.drop_first());
        let b1: nat = if act && e == TaskEvent::Begin { 1 } else { 0 };
        let d1: nat = if p == TaskPhase::Polling && e != TaskEvent::Begin { 1 } else { 0 };
        let c1: nat = if act && e == TaskEvent::Complete { 1 } else { 0 };
        (pn, b + b1, d + d1, c + c1)
    }
}

/// The slot of a task whose state machine has type `F`.
pub enum TaskSlot<F> {
    Idle(F),
    Polling,
    Done,
}

impl<F> TaskSlot<F> {
    /// The phase of the task.
    pub open spec fn phase(&self) -> TaskPhase {
        match self {
            TaskSlot::Idle(_) => TaskPhase::Idle,
            TaskSlot::Polling => TaskPhase::Polling,
            TaskSlot::Done => TaskPhase::Done,
        }
    }

    /// A slot that holds `fut`, ready for its first poll.
    pub fn new(fut: F) -> (r: TaskSlot<F>)
        ensures
            r == TaskSlot::Idle(fut),
    {
        TaskSlot::Idle(fut)
    }

    /// Takes the state machine out to poll it: only from an idle slot, so that no
    /// two polls of a task overlap and a completed task is never polled again.
    pub fn begin_poll(&mut self) -> (r: Option<F>)
        ensures
            (final(self).phase(), r is Some) == task_step(old(self).phase(), TaskEvent::Begin),
            *old(self) matches TaskSlot::Idle(f) ==> r == Some(f),
    {
        let mut taken = TaskSlot::Polling;
        std::mem::swap(self, &mut taken);
        match taken {
            TaskSlot::Idle(f) => Some(f),
            TaskSlot::Polling => None,
            TaskSlot::Done => {
                *self = TaskSlot::Done;
                None
            },
        }
    }

    /// The poll returned `Pending`: the state machine goes back for the next poll.
    /// Outside a poll the slot is left as it is and `fut` is dropped.
    pub fn suspend(&mut self, fut: F)
        ensures
            final(self).phase() == task_step(old(self).phase(), TaskEvent::Suspend).0,
            old(self).phase() == TaskPhase::Polling ==> *final(self) == TaskSlot::Idle(fut),
            old(self).phase() != TaskPhase::Polling ==> *final(self) == *old(self),
    {
        if let TaskSlot::Polling = self {
            *self = TaskSlot::Idle(fut);
        }
    }

    /// The poll returned `Ready`: the slot stays empty for good. Returns whether the
    /// ready callback is owed, which is so exactly when a poll was in progress.
    pub fn complete(&mut self) -> (r: bool)
        ensures
            (final(self).phase(), r) == task_step(old(self).phase(), TaskEvent::Complete),
            old(self).phase() != TaskPhase::Polling ==> *final(self) == *old(self),
    {
        if let TaskSlot::Polling = self {
            *self = TaskSlot::Done;
            true
        } else {
            false
        }
    }

    /// Whether the task has completed.
    pub fn is_done(&self) -> (r: bool)
        ensures
            r == (self.phase() == TaskPhase::Done),
    {
        matches!(self, TaskSlot::Done)
    }
}

/// Polls of one task never overlap: over any run, the polls begun minus the polls
/// ended is the change in the number of polls in progress, which is never above one.
pub proof fn lemma_polls_never_overlap(p: TaskPhase, events: Seq<TaskEvent>)
    ensures
        ({
            let (pn, begun, ended, _) = task_run(p, events);
            &&& begun + in_flight(p) == ended + in_flight(pn)
            &&& in_flight(pn) <= 1
        }),
    decreases events.len(),
{
    if events.len() > 0 {
        let (p1, _) = task_step(p, events[0]);
        lemma_polls_never_overlap(p1, events.drop_first());
    }
}

/// The ready callback is owed at most once over any run, and never after the task
/// has completed; a completed task stays so, and when the callback is owed the run
/// ends with the task completed.
pub proof fn lemma_single_completion(p: TaskPhase, events: Seq<TaskEvent>)
    ensures
        ({
            let (pn, _, _, callbacks) = task_run(p, events);
            &&& callbacks <= 1
            &&& p == TaskPhase::Done ==> callbacks == 0 && pn == TaskPhase::Done
            &&& callbacks == 1 ==> pn == TaskPhase::Done
        }),
    decreases events.len(),
{
    if events.len() > 0 {
        let (p1, _) = task_step(p, events[0]);
        lemma_single_completion(p1, events.drop_first());
    }
}

/// Every wake is followed by a poll that gets the state machine, while the pool
/// takes jobs: the wake adds a poll job `poll` to the queue `q`, which hands it out
/// after the jobs queued before it (also when the queue is finished meanwhile); and
/// that poll finds the task idle, at once or once a poll in progress has
/// suspended. A task that completes meanwhile needs no further poll.
pub proof fn lemma_wake_leads_to_poll<J>(q: (Seq<J>, bool), poll: J, p: TaskPhase, finish: bool)
    requires
        !q.1,
        p != TaskPhase::Done,
    ensures
        ({
            let added = add_spec(q, poll);
            let s = if finish { finish_spec(added) } else { added };
            next_spec(next_n_spec(s, q.0.len())).1 == Dequeue::Job(poll)
        }),
        ({
            let ready = if p == TaskPhase::Polling {
                task_step(p, TaskEvent::Suspend).0
            } else {
                p
            };
            task_step(ready, TaskEvent::Begin) == (TaskPhase::Polling, true)
        }),
{
    lemma_added_job_is_handed_out(q, poll, finish);
}

} // verus!
