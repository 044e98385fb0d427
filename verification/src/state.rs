use vstd::prelude::*;

verus! {

/// The shutdown state shared by the two endpoints of a channel: one flag per
/// side, each set at most once and never cleared (half-close is monotonic).
///
/// In a concurrent embedding the two flags live in one shared record and are
/// read by both sides; here the record is a plain value owned by the channel,
/// and the embedding serializes access to it.
#[derive(Clone, Copy, Debug, PartialEq, Eq, Structural)]
pub struct State {
    /// The producer side has been shut down.
    pub producer_shutdown: bool,
    /// The consumer side has been shut down.
    pub consumer_shutdown: bool,
}

impl State {
    /// A fresh state: neither side is shut down.
    pub fn new() -> (s: State)
        ensures
            !s.producer_shutdown,
            !s.consumer_shutdown,
    {
        State { producer_shutdown: false, consumer_shutdown: false }
    }

    /// Whether the producer side has been shut down.
    pub fn is_producer_shutdown(&self) -> (r: bool)
        ensures
            r == self.producer_shutdown,
    {
        self.producer_shutdown
    }

    /// Whether the consumer side has been shut down.
    pub fn is_consumer_shutdown(&self) -> (r: bool)
        ensures
            r == self.consumer_shutdown,
    {
        self.consumer_shutdown
    }

    /// Record that the producer side is shut down.  Idempotent, and never
    /// touches the consumer's flag.
    pub fn set_producer_shutdown(&mut self)
        ensures
            final(self).producer_shutdown,
            final(self).consumer_shutdown == old(self).consumer_shutdown,
    {
        self.producer_shutdown = true;
    }

    /// Record that the consumer side is shut down.  Idempotent, and never
    /// touches the producer's flag.
    pub fn set_consumer_shutdown(&mut self)
        ensures
            final(self).consumer_shutdown,
            final(self).producer_shutdown == old(self).producer_shutdown,
    {
        self.consumer_shutdown = true;
    }
}

} // verus!
