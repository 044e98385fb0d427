use vstd::prelude::*;

use crate::endpoint::EndPoint;
use crate::endpoint::IoNotifier;
use crate::events::IoEvent;
use crate::events::IoEvents;
use crate::model::ChannelModel;
use crate::outcome::PopOutcome;
use crate::outcome::PopSliceOutcome;
use crate::outcome::PushOutcome;
use crate::outcome::PushSliceOutcome;
use crate::state::State;
use crate::store::ByteRing;
use crate::store::ring_cap;
use crate::store::ring_capacity;
use crate::store::ring_contents;
use crate::store::ring_is_empty;
use crate::store::ring_is_full;
use crate::store::ring_new;
use crate::store::ring_pop;
use crate::store::ring_pop_slice;
use crate::store::ring_push;
use crate::store::ring_push_slice;

verus! {

/// A bounded, unidirectional byte channel: one fixed-capacity ring buffer,
/// the shutdown state shared by its two sides, and one endpoint record per
/// side (non-blocking flag and readiness notifier).
///
/// Every operation is one attempt, specified by the matching transition
/// function on [`ChannelModel`].  A `Park` outcome tells a blocking embedding
/// to park the calling thread on that side's waiter queue and retry after a
/// wakeup — re-attempting after enqueueing, not before, is what closes the
/// lost-wakeup race, and the channel itself never blocks or busy-polls.
pub struct Channel {
    store: ByteRing,
    state: State,
    producer_ep: EndPoint,
    consumer_ep: EndPoint,
}

impl View for Channel {
    type V = ChannelModel;

    closed spec fn view(&self) -> ChannelModel {
        ChannelModel {
            buffered: ring_contents(&self.store),
            capacity: ring_capacity(&self.store) as nat,
            producer_shutdown: self.state.producer_shutdown,
            consumer_shutdown: self.state.consumer_shutdown,
            producer_nonblocking: self.producer_ep.spec_nonblocking(),
            consumer_nonblocking: self.consumer_ep.spec_nonblocking(),
            producer_events: self.producer_ep.spec_events(),
            consumer_events: self.consumer_ep.spec_events(),
        }
    }
}

impl Channel {
    /// A fresh channel of the given capacity: empty, neither side shut
    /// down, both sides blocking, nothing broadcast yet.
    ///
    /// The underlying ring buffer allocates one slot more than the
    /// capacity, so the capacity must leave room for it.
    pub fn new(capacity: usize) -> (c: Channel)
        requires
            capacity < usize::MAX,
        ensures
            c@.wf(),
            c@.capacity == capacity,
            c@.buffered == Seq::<u8>::empty(),
            !c@.producer_shutdown,
            !c@.consumer_shutdown,
            !c@.producer_nonblocking,
            !c@.consumer_nonblocking,
            c@.producer_events == Seq::<IoEvent>::empty(),
            c@.consumer_events == Seq::<IoEvent>::empty(),
    {
        Channel {
            store: ring_new(capacity),
            state: State::new(),
            producer_ep: EndPoint::new(),
            consumer_ep: EndPoint::new(),
        }
    }

    /// The fixed capacity, in bytes.
    pub fn capacity(&self) -> (r: usize)
        ensures
            r == self@.capacity,
    {
        ring_cap(&self.store)
    }

    /// One attempt to push a byte, per [`ChannelModel::push_tr`]: `Epipe`
    /// when either side is shut down; else append and broadcast `IN` when
    /// there is space; else `Eagain` (non-blocking) or `Park` (blocking).
    pub fn push(&mut self, item: u8) -> (r: PushOutcome)
        ensures
            final(self)@ == old(self)@.push_tr(item).0,
            r == old(self)@.push_tr(item).1,
    {
        if self.state.is_producer_shutdown() || self.state.is_consumer_shutdown() {
            return PushOutcome::Epipe;
        }
        let pushed = ring_push(&mut self.store, item);
        if pushed {
            self.producer_ep.broadcast(IoEvent::In);
            PushOutcome::Pushed
        } else if self.producer_ep.is_nonblocking() {
            PushOutcome::Eagain
        } else {
            PushOutcome::Park
        }
    }

    /// One attempt to pop a byte, per [`ChannelModel::pop_tr`]: `Epipe` when
    /// the consumer itself is shut down; else take the oldest byte and
    /// broadcast `OUT`; else `Eos` when the producer is shut down (clean end
    /// of stream); else `Eagain` (non-blocking) or `Park` (blocking).
    pub fn pop(&mut self) -> (r: PopOutcome)
        ensures
            final(self)@ == old(self)@.pop_tr().0,
            r == old(self)@.pop_tr().1,
    {
        if self.state.is_consumer_shutdown() {
            return PopOutcome::Epipe;
        }
        match ring_pop(&mut self.store) {
            Some(item) => {
                self.consumer_ep.broadcast(IoEvent::Out);
                PopOutcome::Popped(item)
            }
            None => {
                if self.state.is_producer_shutdown() {
                    PopOutcome::Eos
                } else if self.consumer_ep.is_nonblocking() {
                    PopOutcome::Eagain
                } else {
                    PopOutcome::Park
                }
            }
        }
    }

    /// One attempt to push a slice, per [`ChannelModel::push_slice_tr`]:
    /// writes as many leading bytes as fit and returns that count; a count
    /// of zero takes the same blocking/non-blocking branch as `push`.
    pub fn push_slice(&mut self, items: &[u8]) -> (r: PushSliceOutcome)
        ensures
            final(self)@ == old(self)@.push_slice_tr(items@).0,
            r == old(self)@.push_slice_tr(items@).1,
    {
        if self.state.is_producer_shutdown() || self.state.is_consumer_shutdown() {
            return PushSliceOutcome::Epipe;
        }
        let n = ring_push_slice(&mut self.store, items);
        if n > 0 {
            self.producer_ep.broadcast(IoEvent::In);
            PushSliceOutcome::Pushed(n)
        } else if self.producer_ep.is_nonblocking() {
            PushSliceOutcome::Eagain
        } else {
            PushSliceOutcome::Park
        }
    }

    /// One attempt to pop into the caller's buffer, per
    /// [`ChannelModel::pop_slice_tr`]: moves as many leading bytes as the
    /// buffer holds over its prefix and returns that count; a count of zero
    /// is a clean end of stream when the producer is shut down, and takes
    /// the blocking/non-blocking branch otherwise.
    pub fn pop_slice(&mut self, items: &mut Vec<u8>) -> (r: PopSliceOutcome)
        ensures
            final(self)@ == old(self)@.pop_slice_tr(old(items)@.len() as int).0,
            r == old(self)@.pop_slice_tr(old(items)@.len() as int).1,
            final(items)@.len() == old(items)@.len(),
            final(items)@ == old(self)@.buffered.take(
                old(self)@.pop_slice_n(old(items)@.len() as int),
            ) + old(items)@.skip(old(self)@.pop_slice_n(old(items)@.len() as int)),
    {
        if self.state.is_consumer_shutdown() {
            proof {
                assert(old(self)@.buffered.take(0) + old(items)@.skip(0) =~= old(items)@);
            }
            return PopSliceOutcome::Epipe;
        }
        let n = ring_pop_slice(&mut self.store, items);
        if n > 0 {
            self.consumer_ep.broadcast(IoEvent::Out);
            proof {
                assert(self@ =~= old(self)@.pop_slice_tr(old(items)@.len() as int).0);
            }
            PopSliceOutcome::Popped(n)
        } else {
            proof {
                assert(old(self)@.buffered.skip(0) =~= old(self)@.buffered);
                assert(self@ =~= old(self)@.pop_slice_tr(old(items)@.len() as int).0);
            }
            if self.state.is_producer_shutdown() {
                PopSliceOutcome::Eos
            } else if self.consumer_ep.is_nonblocking() {
                PopSliceOutcome::Eagain
            } else {
                PopSliceOutcome::Park
            }
        }
    }

    /// The producer's non-blocking readiness: `OUT` iff the buffer is not
    /// full, `HUP` iff the producer itself is shut down, `RDHUP` iff its
    /// peer (the consumer) is shut down.
    pub fn poll_producer(&self) -> (ev: IoEvents)
        requires
            self@.wf(),
        ensures
            !ev.readable,
            ev.writable == (self@.buffered.len() < self@.capacity),
            ev.hup == self@.producer_shutdown,
            ev.rdhup == self@.consumer_shutdown,
    {
        let writable = !ring_is_full(&self.store);
        IoEvents {
            readable: false,
            writable,
            hup: self.state.is_producer_shutdown(),
            rdhup: self.state.is_consumer_shutdown(),
        }
    }

    /// The consumer's non-blocking readiness: `IN` iff the buffer is not
    /// empty, `RDHUP` iff the consumer itself is shut down, `HUP` iff its
    /// peer (the producer) is shut down.
    pub fn poll_consumer(&self) -> (ev: IoEvents)
        ensures
            ev.readable == (self@.buffered.len() > 0),
            !ev.writable,
            ev.hup == self@.producer_shutdown,
            ev.rdhup == self@.consumer_shutdown,
    {
        let readable = !ring_is_empty(&self.store);
        IoEvents {
            readable,
            writable: false,
            hup: self.state.is_producer_shutdown(),
            rdhup: self.state.is_consumer_shutdown(),
        }
    }

    /// Shut the producer side down, per
    /// [`ChannelModel::producer_shutdown_tr`]: set its flag (idempotently)
    /// and broadcast `HUP`.  Buffered bytes stay for the consumer to drain.
    ///
    /// A concurrent embedding must serialize this against a push that is
    /// mid-check (hold the buffer lock while flipping the flag) and wake
    /// every thread parked on the producer's waiter queue afterwards.
    pub fn shutdown_producer(&mut self)
        ensures
            final(self)@ == old(self)@.producer_shutdown_tr(),
    {
        self.state.set_producer_shutdown();
        self.producer_ep.broadcast(IoEvent::Hup);
    }

    /// Shut the consumer side down, per
    /// [`ChannelModel::consumer_shutdown_tr`]: set its flag (idempotently)
    /// and broadcast `RDHUP`.  The same serialization and wakeup duties as
    /// for the producer apply to the embedding.
    pub fn shutdown_consumer(&mut self)
        ensures
            final(self)@ == old(self)@.consumer_shutdown_tr(),
    {
        self.state.set_consumer_shutdown();
        self.consumer_ep.broadcast(IoEvent::RdHup);
    }

    /// Whether the producer side has been shut down.
    pub fn is_producer_shutdown(&self) -> (r: bool)
        ensures
            r == self@.producer_shutdown,
    {
        self.state.is_producer_shutdown()
    }

    /// Whether the consumer side has been shut down.
    pub fn is_consumer_shutdown(&self) -> (r: bool)
        ensures
            r == self@.consumer_shutdown,
    {
        self.state.is_consumer_shutdown()
    }

    /// Whether the producer side is non-blocking.
    pub fn is_producer_nonblocking(&self) -> (r: bool)
        ensures
            r == self@.producer_nonblocking,
    {
        self.producer_ep.is_nonblocking()
    }

    /// Whether the consumer side is non-blocking.
    pub fn is_consumer_nonblocking(&self) -> (r: bool)
        ensures
            r == self@.consumer_nonblocking,
    {
        self.consumer_ep.is_nonblocking()
    }

    /// Switch the producer side's non-blocking mode.  When switching to
    /// non-blocking, the embedding must wake every thread parked on the
    /// producer's waiter queue, so each retries and observes the new mode.
    pub fn set_producer_nonblocking(&mut self, nonblocking: bool)
        ensures
            final(self)@ == (ChannelModel { producer_nonblocking: nonblocking, ..old(self)@ }),
    {
        self.producer_ep.set_nonblocking(nonblocking);
    }

    /// Switch the consumer side's non-blocking mode, with the same wakeup
    /// duty for the embedding as on the producer side.
    pub fn set_consumer_nonblocking(&mut self, nonblocking: bool)
        ensures
            final(self)@ == (ChannelModel { consumer_nonblocking: nonblocking, ..old(self)@ }),
    {
        self.consumer_ep.set_nonblocking(nonblocking);
    }

    /// The producer's readiness notifier.
    pub fn producer_notifier(&self) -> (n: &IoNotifier)
        ensures
            n@ == self@.producer_events,
    {
        self.producer_ep.notifier()
    }

    /// The consumer's readiness notifier.
    pub fn consumer_notifier(&self) -> (n: &IoNotifier)
        ensures
            n@ == self@.consumer_events,
    {
        self.consumer_ep.notifier()
    }

    /// Hand the producer side's pending events to the embedding for
    /// delivery to the consumer side's observers, oldest first.
    pub fn take_producer_events(&mut self) -> (events: Vec<IoEvent>)
        ensures
            events@ == old(self)@.producer_events,
            final(self)@ == (ChannelModel { producer_events: Seq::<IoEvent>::empty(), ..old(self)@ }),
    {
        self.producer_ep.take_events()
    }

    /// Hand the consumer side's pending events to the embedding for
    /// delivery to the producer side's observers, oldest first.
    pub fn take_consumer_events(&mut self) -> (events: Vec<IoEvent>)
        ensures
            events@ == old(self)@.consumer_events,
            final(self)@ == (ChannelModel { consumer_events: Seq::<IoEvent>::empty(), ..old(self)@ }),
    {
        self.consumer_ep.take_events()
    }
}

} // verus!
