//! The process-wide registration slot of a runtime: set once, then poisoned for
//! good when the runtime has run to completion.
use vstd::prelude::*;

verus! {

/// Why the slot refused a request.
#[derive(Clone, Copy, Debug, PartialEq, Eq, Structural)]
pub enum SlotError {
    /// A runtime is already registered.
    AlreadySet,
    /// No runtime is registered yet.
    NotSet,
    /// The registered runtime has terminated; nothing can use the slot any more.
    Terminated,
}

/// The slot, holding a runtime of type `R` once one is registered.
pub struct RuntimeSlot<R> {
    runtime: Option<R>,
    terminated: bool,
}

impl<R> RuntimeSlot<R> {
    /// The registered runtime, if any.
    pub closed spec fn runtime(&self) -> Option<R> {
        self.runtime
    }

    /// Whether the runtime has terminated.
    pub closed spec fn terminated(&self) -> bool {
        self.terminated
    }

    /// An empty slot.
    pub fn new() -> (r: RuntimeSlot<R>)
        ensures
            r.runtime() == None::<R>,
            !r.terminated(),
    {
        RuntimeSlot { runtime: None, terminated: false }
    }

    /// Fails with `Terminated` once the runtime has terminated.
    pub fn check_terminated(&self) -> (r: Result<(), SlotError>)
        ensures
            r == (if self.terminated() {
                Err(SlotError::Terminated)
            } else {
                Ok::<(), SlotError>(())
            }),
    {
        if self.terminated {
            Err(SlotError::Terminated)
        } else {
            Ok(())
        }
    }

    /// Installs `rt`; fails, leaving the slot as it was, when the slot has terminated
    /// or already holds a runtime.
    pub fn register(&mut self, rt: R) -> (r: Result<(), SlotError>)
        ensures
            old(self).terminated() ==> r == Err::<(), SlotError>(SlotError::Terminated),
            !old(self).terminated() && old(self).runtime() is Some ==> r == Err::<(), SlotError>(
                SlotError::AlreadySet,
            ),
            r is Err ==> *final(self) == *old(self),
            !old(self).terminated() && old(self).runtime() is None ==> {
                &&& r == Ok::<(), SlotError>(())
                &&& final(self).runtime() == Some(rt)
                &&& !final(self).terminated()
            },
    {
        if self.terminated {
            return Err(SlotError::Terminated);
        }
        if self.runtime.is_some() {
            return Err(SlotError::AlreadySet);
        }
        self.runtime = Some(rt);
        Ok(())
    }

    /// The registered runtime, unless the slot is empty or has terminated.
    pub fn get(&self) -> (r: Result<&R, SlotError>)
        ensures
            self.terminated() ==> r == Err::<&R, SlotError>(SlotError::Terminated),
            !self.terminated() && self.runtime() is None ==> r == Err::<&R, SlotError>(
                SlotError::NotSet,
            ),
            !self.terminated() && self.runtime() is Some ==> r == Ok::<&R, SlotError>(
                &self.runtime().unwrap(),
            ),
    {
        if self.terminated {
            return Err(SlotError::Terminated);
        }
        match &self.runtime {
            Some(rt) => Ok(rt),
            None => Err(SlotError::NotSet),
        }
    }

    /// Marks the runtime terminated, after its `block_on` has returned.
    pub fn terminate(&mut self)
        ensures
            final(self).terminated(),
            final(self).runtime() == old(self).runtime(),
    {
        self.terminated = true;
    }
}

} // verus!
