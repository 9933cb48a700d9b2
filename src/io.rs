//! The readiness protocol of a non-blocking I/O handle. Each direction is armed
//! or disarmed: armed, the poll tries the system call; disarmed, it drains
//! readiness events until one arms it, or parks the task on the event receiver.
use crate::event::{Event, READABLE, WRITABLE};
use vstd::prelude::*;

verus! {

/// One direction of a byte stream.
#[derive(Clone, Copy, Debug, PartialEq, Eq, Structural)]
pub enum Direction {
    Read,
    Write,
}

/// The event flag that arms a direction.
pub open spec fn direction_flag(d: Direction) -> u8 {
    match d {
        Direction::Read => READABLE,
        Direction::Write => WRITABLE,
    }
}

/// What a poll in one direction does next.
#[derive(Clone, Copy, Debug, PartialEq, Eq, Structural)]
pub enum IoStep {
    /// Try the non-blocking system call.
    Attempt,
    /// Take the next readiness event from the receiver; when none is there, park the
    /// task on the receiver and return `Pending`.
    Drain,
}

/// How a non-blocking system call ended.
#[derive(Clone, Copy, Debug, PartialEq, Eq, Structural)]
pub enum AttemptOutcome {
    /// It transferred bytes (or reported end of stream).
    Done,
    /// The OS reported that it would block.
    WouldBlock,
    /// Another error.
    Failed,
}

/// Which directions of a handle are armed.
#[derive(Clone, Copy, Debug, PartialEq, Eq, Structural)]
pub struct IoReadiness {
    read_armed: bool,
    write_armed: bool,
}

/// Arming after the events `evs` were drained, in order, from `armed`: a direction
/// is armed when it was, or when one of the events carries its flag.
pub open spec fn armed_after(armed: bool, d: Direction, evs: Seq<Event>) -> bool
    decreases evs.len(),
{
    if evs.len() == 0 {
        armed
    } else {
        armed_after(armed || evs[0].has(direction_flag(d)), d, evs.drop_first())
    }
}

impl IoReadiness {
    /// Whether direction `d` is armed.
    pub closed spec fn armed(self, d: Direction) -> bool {
        match d {
            Direction::Read => self.read_armed,
            Direction::Write => self.write_armed,
        }
    }

    /// A handle that has seen no event yet: both directions disarmed.
    pub fn new() -> (r: IoReadiness)
        ensures
            !r.armed(Direction::Read),
            !r.armed(Direction::Write),
    {
        IoReadiness { read_armed: false, write_armed: false }
    }

    pub fn is_armed(&self, d: Direction) -> (r: bool)
        ensures
            r == self.armed(d),
    {
        match d {
            Direction::Read => self.read_armed,
            Direction::Write => self.write_armed,
        }
    }

    /// The next step of a poll in direction `d`: the call when armed, else a drain.
    pub fn next_step(&self, d: Direction) -> (r: IoStep)
        ensures
            r == (if self.armed(d) {
                IoStep::Attempt
            } else {
                IoStep::Drain
            }),
    {
        if self.is_armed(d) {
            IoStep::Attempt
        } else {
            IoStep::Drain
        }
    }

    /// Records how the call in direction `d` ended, and returns whether the poll goes
    /// on draining events. `WouldBlock` disarms `d` and goes on; the poll returns the
    /// result of any other outcome, and the arming stays as it was.
    pub fn after_attempt(&mut self, d: Direction, outcome: AttemptOutcome) -> (r: bool)
        ensures
            r == (outcome == AttemptOutcome::WouldBlock),
            r ==> !final(self).armed(d),
            outcome != AttemptOutcome::WouldBlock ==> *final(self) == *old(self),
            forall|e: Direction| e != d ==> final(self).armed(e) == old(self).armed(e),
    {
        match outcome {
            AttemptOutcome::WouldBlock => {
                match d {
                    Direction::Read => self.read_armed = false,
                    Direction::Write => self.write_armed = false,
                }
                true
            },
            _ => false,
        }
    }

    /// Records a drained event: it arms each direction whose flag it carries, whatever
    /// direction is being polled, and disarms none.
    pub fn on_event(&mut self, ev: Event)
        ensures
            forall|d: Direction| #[trigger]
                final(self).armed(d) == (old(self).armed(d) || ev.has(direction_flag(d))),
    {
        if ev.contains(Event::from_bits_retain(READABLE)) {
            self.read_armed = true;
        }
        if ev.contains(Event::from_bits_retain(WRITABLE)) {
            self.write_armed = true;
        }
        proof {
            assert forall|d: Direction| #[trigger]
                self.armed(d) == (old(self).armed(d) || ev.has(direction_flag(d))) by {
                match d {
                    Direction::Read => {},
                    Direction::Write => {},
                }
            }
        }
    }
}

/// No event is lost: once the events `evs` have been drained, in whatever order, a
/// direction that one of them announced is armed, so the next poll in that direction
/// tries the system call before it can return `Pending`.
pub proof fn lemma_no_lost_event(armed: bool, d: Direction, evs: Seq<Event>, i: int)
    requires
        0 <= i < evs.len(),
        evs[i].has(direction_flag(d)),
    ensures
        armed_after(armed, d, evs),
    decreases evs.len(),
{
    if i == 0 {
        lemma_armed_stays(true, d, evs.drop_first());
    } else {
        lemma_no_lost_event(
            armed || evs[0].has(direction_flag(d)),
            d,
            evs.drop_first(),
            i - 1,
        );
    }
}

/// Draining events never disarms a direction.
pub proof fn lemma_armed_stays(armed: bool, d: Direction, evs: Seq<Event>)
    requires
        armed,
    ensures
        armed_after(armed, d, evs),
    decreases evs.len(),
{
    if evs.len() > 0 {
        lemma_armed_stays(true, d, evs.drop_first());
    }
}

} // verus!
