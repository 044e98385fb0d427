use vstd::prelude::*;

verus! {

/// A single readiness event, broadcast through an endpoint's notifier after
/// the buffer mutation or state change that makes it true.
#[derive(Clone, Copy, Debug, PartialEq, Eq, Structural)]
pub enum IoEvent {
    /// Data became available to read (`IN`): broadcast by the producer after
    /// a successful push.
    In,
    /// Space became available to write (`OUT`): broadcast by the consumer
    /// after a successful pop.
    Out,
    /// An endpoint closed its write side (`HUP`): broadcast by the producer
    /// on shutdown.
    Hup,
    /// An endpoint closed its read side (`RDHUP`): broadcast by the consumer
    /// on shutdown.
    RdHup,
}

/// The readiness of one endpoint, as reported by a non-blocking poll.
#[derive(Clone, Copy, Debug, PartialEq, Eq, Structural)]
pub struct IoEvents {
    /// Data is available to read (`IN`).
    pub readable: bool,
    /// Space is available to write (`OUT`).
    pub writable: bool,
    /// The polled endpoint's write side is shut down (`HUP`).
    pub hup: bool,
    /// The polled endpoint's read side is shut down (`RDHUP`).
    pub rdhup: bool,
}

impl IoEvents {
    /// The empty event set.
    pub fn empty() -> (r: IoEvents)
        ensures
            !r.readable,
            !r.writable,
            !r.hup,
            !r.rdhup,
    {
        IoEvents { readable: false, writable: false, hup: false, rdhup: false }
    }
}

} // verus!
