use vstd::prelude::*;

use crate::events::IoEvent;

verus! {

/// A readiness-event broadcaster owned by one endpoint.
///
/// External pollers register interest on the notifier; the peer endpoint's
/// waiter queue observes it so that an action on one side can wake threads
/// parked on the other.  Delivery is the embedding's job, so the notifier is
/// modeled as the ordered log of events broadcast so far: the embedding
/// drains the log and hands each event to every live registered observer.
pub struct IoNotifier {
    log: Vec<IoEvent>,
}

impl View for IoNotifier {
    type V = Seq<IoEvent>;

    closed spec fn view(&self) -> Seq<IoEvent> {
        self.log@
    }
}

impl IoNotifier {
    /// A notifier with nothing broadcast yet.
    pub fn new() -> (n: IoNotifier)
        ensures
            n@ == Seq::<IoEvent>::empty(),
    {
        IoNotifier { log: Vec::new() }
    }

    /// Broadcast one readiness event to the notifier's observers.
    pub fn broadcast(&mut self, event: IoEvent)
        ensures
            final(self)@ == old(self)@.push(event),
    {
        self.log.push(event);
    }

    /// The events broadcast so far, oldest first.
    pub fn events(&self) -> (events: &Vec<IoEvent>)
        ensures
            events@ == self@,
    {
        &self.log
    }

    /// Hand the pending events to the embedding for delivery, oldest first,
    /// leaving the log empty.
    pub fn take_events(&mut self) -> (events: Vec<IoEvent>)
        ensures
            final(self)@ == Seq::<IoEvent>::empty(),
            events@ == old(self)@,
    {
        let mut taken: Vec<IoEvent> = Vec::new();
        core::mem::swap(&mut taken, &mut self.log);
        taken
    }
}

/// The per-side record of an endpoint: its non-blocking flag and its
/// readiness notifier.
///
/// In a concurrent embedding an endpoint also owns a waiter queue that parks
/// its own blocked threads; parking is the embedding's mechanism, and the
/// channel's operations tell it when to park through their `Park` outcomes.
pub struct EndPoint {
    nonblocking: bool,
    notifier: IoNotifier,
}

impl EndPoint {
    /// Whether the endpoint is in non-blocking mode.
    pub closed spec fn spec_nonblocking(&self) -> bool {
        self.nonblocking
    }

    /// The events broadcast through this endpoint's notifier so far.
    pub closed spec fn spec_events(&self) -> Seq<IoEvent> {
        self.notifier@
    }

    /// A fresh endpoint: blocking, with nothing broadcast yet.
    pub fn new() -> (ep: EndPoint)
        ensures
            !ep.spec_nonblocking(),
            ep.spec_events() == Seq::<IoEvent>::empty(),
    {
        EndPoint { nonblocking: false, notifier: IoNotifier::new() }
    }

    /// The endpoint's readiness notifier; observers register interest here.
    pub fn notifier(&self) -> (n: &IoNotifier)
        ensures
            n@ == self.spec_events(),
    {
        &self.notifier
    }

    /// Whether the endpoint is non-blocking.  By default it is blocking.
    pub fn is_nonblocking(&self) -> (r: bool)
        ensures
            r == self.spec_nonblocking(),
    {
        self.nonblocking
    }

    /// Switch the endpoint's non-blocking mode.
    ///
    /// When switching to non-blocking, the embedding must wake every thread
    /// parked on this endpoint's waiter queue: a retried operation then
    /// observes the new mode and returns `Eagain` instead of parking again
    /// (the channel's operations never return `Park` from a non-blocking
    /// endpoint).
    pub fn set_nonblocking(&mut self, nonblocking: bool)
        ensures
            final(self).spec_nonblocking() == nonblocking,
            final(self).spec_events() == old(self).spec_events(),
    {
        self.nonblocking = nonblocking;
    }

    /// Broadcast one readiness event through this endpoint's notifier.
    pub fn broadcast(&mut self, event: IoEvent)
        ensures
            final(self).spec_events() == old(self).spec_events().push(event),
            final(self).spec_nonblocking() == old(self).spec_nonblocking(),
    {
        self.notifier.broadcast(event);
    }

    /// Hand the pending events to the embedding for delivery, oldest first.
    pub fn take_events(&mut self) -> (events: Vec<IoEvent>)
        ensures
            final(self).spec_events() == Seq::<IoEvent>::empty(),
            final(self).spec_nonblocking() == old(self).spec_nonblocking(),
            events@ == old(self).spec_events(),
    {
        self.notifier.take_events()
    }
}

} // verus!
