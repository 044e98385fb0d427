use vstd::prelude::*;

verus! {

/// The outcome of one attempt to push a byte.
///
/// `Park` is the blocking branch of the waiting discipline: the channel is
/// full, the producer is in blocking mode, and the caller must park on the
/// producer's waiter queue and retry after a wakeup.  The embedding performs
/// the parking; the channel itself never blocks.
#[derive(Clone, Copy, Debug, PartialEq, Eq, Structural)]
pub enum PushOutcome {
    /// The byte was appended and `IN` was broadcast.
    Pushed,
    /// Terminal failure (`EPIPE`): this side or its peer is shut down.
    Epipe,
    /// Transient failure (`EAGAIN`): the buffer is full and the producer is
    /// non-blocking.
    Eagain,
    /// The buffer is full and the producer is blocking: park and retry.
    Park,
}

/// The outcome of one attempt to pop a byte.
#[derive(Clone, Copy, Debug, PartialEq, Eq, Structural)]
pub enum PopOutcome {
    /// A byte was taken from the head of the buffer and `OUT` was broadcast.
    Popped(u8),
    /// Clean end of stream: the buffer is empty and the producer is shut
    /// down, so no more data will ever arrive.  Not an error.
    Eos,
    /// Terminal failure (`EPIPE`): the consumer itself is shut down.
    Epipe,
    /// Transient failure (`EAGAIN`): the buffer is empty, the producer is
    /// alive, and the consumer is non-blocking.
    Eagain,
    /// The buffer is empty, the producer is alive, and the consumer is
    /// blocking: park and retry.
    Park,
}

/// The outcome of one attempt to push a slice of bytes.
#[derive(Clone, Copy, Debug, PartialEq, Eq, Structural)]
pub enum PushSliceOutcome {
    /// This many leading bytes (at least one) were appended and `IN` was
    /// broadcast; the rest did not fit.
    Pushed(usize),
    /// Terminal failure (`EPIPE`): this side or its peer is shut down.
    Epipe,
    /// Transient failure (`EAGAIN`): nothing could be written and the
    /// producer is non-blocking.
    Eagain,
    /// Nothing could be written and the producer is blocking: park and retry.
    Park,
}

/// The outcome of one attempt to pop a slice of bytes.
#[derive(Clone, Copy, Debug, PartialEq, Eq, Structural)]
pub enum PopSliceOutcome {
    /// This many leading bytes (at least one) were moved into the caller's
    /// buffer and `OUT` was broadcast.
    Popped(usize),
    /// Clean end of stream: nothing could be read and the producer is shut
    /// down, so no more data will ever arrive.  Not an error.
    Eos,
    /// Terminal failure (`EPIPE`): the consumer itself is shut down.
    Epipe,
    /// Transient failure (`EAGAIN`): nothing could be read, the producer is
    /// alive, and the consumer is non-blocking.
    Eagain,
    /// Nothing could be read, the producer is alive, and the consumer is
    /// blocking: park and retry.
    Park,
}

} // verus!
