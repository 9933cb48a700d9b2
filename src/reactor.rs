//! The reactor's table of registered sources: each source gets a token from a
//! sharded slab, under which the sender of its event channel is kept. Readiness
//! events that the OS notifier reports for a token are pushed into that channel.
use crate::event::Event;
use futures::channel::mpsc::{UnboundedReceiver, UnboundedSender};
use sharded_slab::Slab;
use vstd::prelude::*;

verus! {

/// The sending side of a channel of `futures::channel::mpsc`, carried as an opaque value.
#[verifier::external_type_specification]
#[verifier::external_body]
#[verifier::reject_recursive_types(T)]
pub struct ExUnboundedSender<T>(UnboundedSender<T>);

/// The receiving side of such a channel, carried as an opaque value.
#[verifier::external_type_specification]
#[verifier::external_body]
#[verifier::reject_recursive_types(T)]
pub struct ExUnboundedReceiver<T>(UnboundedReceiver<T>);

/// `std::io::Error`, carried as an opaque value in `ReactorError::Io`.
#[verifier::external_type_specification]
#[verifier::external_body]
pub struct ExIoError(std::io::Error);

/// Relies on `futures::channel::mpsc::unbounded`, which makes a new channel.
pub assume_specification<T>[ futures::channel::mpsc::unbounded::<T> ]() -> (UnboundedSender<T>, UnboundedReceiver<T>);

/// The sending side of a source's event channel, kept by the reactor.
pub type EventSender = UnboundedSender<Event>;

/// The receiving side of a source's event channel, kept by the source's handle.
pub type EventReceiver = UnboundedReceiver<Event>;

/// A `sharded_slab::Slab` of event senders. The slab's type cannot be declared to the
/// verifier, as its config parameter is bound by a trait of its crate; so the slab
/// is held here as an opaque field and reached only through the wrappers below.
#[verifier::external_body]
pub struct SenderSlab {
    slab: Slab<EventSender>,
}

/// The keys that the slab holds a sender for.
pub uninterp spec fn slab_keys(s: SenderSlab) -> Set<usize>;

/// Relies on `sharded_slab::Slab::new`: a new slab holds nothing.
#[verifier::external_body]
fn new_slab() -> (r: SenderSlab)
    ensures
        slab_keys(r) == Set::<usize>::empty(),
{
    SenderSlab { slab: Slab::new() }
}

/// Relies on `sharded_slab::Slab::insert`: it stores the value in a vacant slot and
/// returns that slot's key, which no stored value has, or returns `None` when the
/// shard of the current thread is full. The slab is borrowed exclusively here, so
/// no other access runs meanwhile. `insert` panics when the calling thread is the
/// first to need a slab thread id beyond the default config's limit of 4096; that
/// depends on how many threads have used slabs in this process, which no
/// precondition here can state.
#[verifier::external_body]
fn slab_insert(s: &mut SenderSlab, value: EventSender) -> (r: Option<usize>)
    ensures
        r is Some ==> !slab_keys(*old(s)).contains(r.unwrap()),
        r is Some ==> slab_keys(*final(s)) == slab_keys(*old(s)).insert(r.unwrap()),
        r is None ==> slab_keys(*final(s)) == slab_keys(*old(s)),
{
    s.slab.insert(value)
}

/// Relies on `sharded_slab::Slab::take`: it removes the value stored under `key` and
/// returns it. With the slab borrowed exclusively no guard is outstanding, so the
/// removal takes effect at once. Only a key that the slab holds is taken: on a key
/// it never handed out, `take` still frees that slot, and later inserts could then
/// reuse a live key.
#[verifier::external_body]
fn slab_take(s: &mut SenderSlab, key: usize) -> (r: Option<EventSender>)
    requires
        slab_keys(*old(s)).contains(key),
    ensures
        r is Some,
        slab_keys(*final(s)) == slab_keys(*old(s)).remove(key),
{
    s.slab.take(key)
}

/// Relies on `sharded_slab::Slab::get`: it finds the value stored under `key`, which
/// is cloned out of the guard. With the slab borrowed exclusively no other guard
/// exists, so the limit on concurrent references is not reached.
#[verifier::external_body]
fn slab_get(s: &mut SenderSlab, key: usize) -> (r: Option<EventSender>)
    ensures
        r is Some == slab_keys(*old(s)).contains(key),
        slab_keys(*final(s)) == slab_keys(*old(s)),
{
    s.slab.get(key).map(|entry| (*entry).clone())
}

/// Relies on `UnboundedSender::unbounded_send`, best effort: when the receiver is
/// gone the event is dropped, since its source is being deregistered.
#[verifier::external_body]
fn push_event(tx: &EventSender, ev: Event) {
    let _ = tx.unbounded_send(ev);
}

/// A failure of the reactor.
#[derive(Debug)]
pub enum ReactorError {
    /// The slab of tokens is full.
    SlabQueueFull,
    /// The OS readiness notifier or socket failed.
    Io(std::io::Error),
}

/// The registered sources, by token.
pub struct SourceTable {
    senders: SenderSlab,
}

impl SourceTable {
    /// The tokens of the sources registered now.
    pub closed spec fn tokens(&self) -> Set<usize> {
        slab_keys(self.senders)
    }

    /// A table with no source.
    pub fn new() -> (r: SourceTable)
        ensures
            r.tokens() == Set::<usize>::empty(),
    {
        SourceTable { senders: new_slab() }
    }

    /// Registers a new source: makes its event channel, keeps the sender under a
    /// token that no registered source has, and returns that token with the
    /// receiver. Fails with `SlabQueueFull`, changing nothing, when the slab is full.
    pub fn register(&mut self) -> (r: Result<(usize, EventReceiver), ReactorError>)
        ensures
            r is Ok ==> !old(self).tokens().contains(r->Ok_0.0),
            r is Ok ==> final(self).tokens() == old(self).tokens().insert(r->Ok_0.0),
            r is Err ==> r matches Err(ReactorError::SlabQueueFull),
            r is Err ==> final(self).tokens() == old(self).tokens(),
    {
        let (tx, rx) = futures::channel::mpsc::unbounded();
        match slab_insert(&mut self.senders, tx) {
            Some(token) => Ok((token, rx)),
            None => Err(ReactorError::SlabQueueFull),
        }
    }

    /// Drops the entry of `token`, once the source is deregistered from the OS
    /// notifier. Returns whether the token was registered.
    pub fn deregister(&mut self, token: usize) -> (r: bool)
        ensures
            r == old(self).tokens().contains(token),
            final(self).tokens() == old(self).tokens().remove(token),
    {
        if slab_get(&mut self.senders, token).is_some() {
            let _ = slab_take(&mut self.senders, token);
            true
        } else {
            assert(old(self).tokens().remove(token) =~= old(self).tokens());
            false
        }
    }

    /// Whether `token` belongs to a registered source.
    pub fn contains(&mut self, token: usize) -> (r: bool)
        ensures
            r == old(self).tokens().contains(token),
            final(self).tokens() == old(self).tokens(),
    {
        slab_get(&mut self.senders, token).is_some()
    }

    /// Pushes each event to the channel of its token. The result tells, event by
    /// event, whether its token was registered; events of other tokens are dropped.
    pub fn dispatch(&mut self, events: &Vec<(usize, Event)>) -> (r: Vec<bool>)
        ensures
            final(self).tokens() == old(self).tokens(),
            r@.len() == events@.len(),
            forall|i: int|
                0 <= i < events@.len() ==> #[trigger] r@[i] == old(self).tokens().contains(
                    events@[i].0,
                ),
    {
        let mut routed: Vec<bool> = Vec::new();
        let mut i: usize = 0;
        while i < events.len()
            invariant
                i <= events@.len(),
                self.tokens() == old(self).tokens(),
                routed@.len() == i,
                forall|k: int|
                    0 <= k < i ==> #[trigger] routed@[k] == old(self).tokens().contains(
                        events@[k].0,
                    ),
            decreases events@.len() - i,
        {
            let (token, ev) = events[i];
            match slab_get(&mut self.senders, token) {
                Some(tx) => {
                    push_event(&tx, ev);
                    routed.push(true);
                },
                None => routed.push(false),
            }
            i = i + 1;
        }
        routed
    }
}

/// Tokens name sources one to one: a successful `register` adds exactly one token,
/// and it differs from the token of every source registered before it and still
/// registered, so no two live sources ever share a token.
pub proof fn lemma_tokens_injective(
    before: &SourceTable,
    after: &SourceTable,
    token: usize,
)
    requires
        !before.tokens().contains(token),
        after.tokens() == before.tokens().insert(token),
    ensures
        forall|t: usize| #[trigger] before.tokens().contains(t) ==> t != token,
        forall|t: usize| #[trigger]
            after.tokens().contains(t) ==> t == token || before.tokens().contains(t),
        after.tokens().contains(token),
{
}

} // verus!
