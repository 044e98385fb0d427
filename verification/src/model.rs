use vstd::prelude::*;

use crate::events::IoEvent;
use crate::outcome::PopOutcome;
use crate::outcome::PopSliceOutcome;
use crate::outcome::PushOutcome;
use crate::outcome::PushSliceOutcome;

verus! {

/// The mathematical state of a channel: what is buffered, the fixed
/// capacity, each side's shutdown flag and non-blocking flag, and the log of
/// readiness events each side has broadcast so far.
///
/// Every operation of [`crate::channel::Channel`] is specified as a
/// transition function on this model, so a caller can chain operations
/// purely in specifications and proofs.
#[verifier::ext_equal]
pub struct ChannelModel {
    /// The bytes in the ring buffer, oldest first.
    pub buffered: Seq<u8>,
    /// The fixed capacity of the ring buffer, in bytes.
    pub capacity: nat,
    /// The producer side has been shut down.
    pub producer_shutdown: bool,
    /// The consumer side has been shut down.
    pub consumer_shutdown: bool,
    /// The producer side is in non-blocking mode.
    pub producer_nonblocking: bool,
    /// The consumer side is in non-blocking mode.
    pub consumer_nonblocking: bool,
    /// Events broadcast through the producer's notifier, oldest first.
    pub producer_events: Seq<IoEvent>,
    /// Events broadcast through the consumer's notifier, oldest first.
    pub consumer_events: Seq<IoEvent>,
}

impl ChannelModel {
    /// The buffered count never exceeds the fixed capacity.
    pub open spec fn wf(self) -> bool {
        self.buffered.len() <= self.capacity
    }

    /// One attempt to push a byte, as the producer's fast path and each
    /// retry of its waiting discipline perform it: a terminal `EPIPE` when
    /// either side is shut down; else append and broadcast `IN` when there
    /// is space; else fail with `EAGAIN` (non-blocking) or park (blocking).
    pub open spec fn push_tr(self, item: u8) -> (ChannelModel, PushOutcome) {
        if self.producer_shutdown || self.consumer_shutdown {
            (self, PushOutcome::Epipe)
        } else if self.buffered.len() < self.capacity {
            (
                ChannelModel {
                    buffered: self.buffered.push(item),
                    producer_events: self.producer_events.push(IoEvent::In),
                    ..self
                },
                PushOutcome::Pushed,
            )
        } else if self.producer_nonblocking {
            (self, PushOutcome::Eagain)
        } else {
            (self, PushOutcome::Park)
        }
    }

    /// One attempt to pop a byte: a terminal `EPIPE` when the consumer
    /// itself is shut down; else take the oldest byte and broadcast `OUT`
    /// when one is buffered; else a clean end of stream when the producer is
    /// shut down; else fail with `EAGAIN` (non-blocking) or park (blocking).
    pub open spec fn pop_tr(self) -> (ChannelModel, PopOutcome) {
        if self.consumer_shutdown {
            (self, PopOutcome::Epipe)
        } else if self.buffered.len() > 0 {
            (
                ChannelModel {
                    buffered: self.buffered.skip(1),
                    consumer_events: self.consumer_events.push(IoEvent::Out),
                    ..self
                },
                PopOutcome::Popped(self.buffered[0]),
            )
        } else if self.producer_shutdown {
            (self, PopOutcome::Eos)
        } else if self.consumer_nonblocking {
            (self, PopOutcome::Eagain)
        } else {
            (self, PopOutcome::Park)
        }
    }

    /// How many leading bytes of a slice of the given length one push
    /// attempt writes: as many as fit into the free space.
    pub open spec fn push_slice_n(self, len: int) -> int {
        if len <= self.capacity - self.buffered.len() {
            len
        } else {
            self.capacity - self.buffered.len()
        }
    }

    /// One attempt to push a slice, writing as many leading bytes as fit:
    /// a terminal `EPIPE` when either side is shut down; else append the
    /// bytes that fit and broadcast `IN` when at least one fits; else the
    /// same blocking/non-blocking branch as a single push.  An empty slice
    /// writes zero bytes and also takes that branch.
    pub open spec fn push_slice_tr(self, items: Seq<u8>) -> (ChannelModel, PushSliceOutcome) {
        if self.producer_shutdown || self.consumer_shutdown {
            (self, PushSliceOutcome::Epipe)
        } else {
            let n = self.push_slice_n(items.len() as int);
            if n > 0 {
                (
                    ChannelModel {
                        buffered: self.buffered + items.take(n),
                        producer_events: self.producer_events.push(IoEvent::In),
                        ..self
                    },
                    PushSliceOutcome::Pushed(n as usize),
                )
            } else if self.producer_nonblocking {
                (self, PushSliceOutcome::Eagain)
            } else {
                (self, PushSliceOutcome::Park)
            }
        }
    }

    /// How many bytes one pop attempt with room for the given count reads:
    /// as many as are buffered, at most that count; none when the consumer
    /// is shut down, since the attempt fails before touching the buffer.
    pub open spec fn pop_slice_n(self, len: int) -> int {
        if self.consumer_shutdown {
            0
        } else if len <= self.buffered.len() {
            len
        } else {
            self.buffered.len() as int
        }
    }

    /// One attempt to pop into a buffer with room for `len` bytes: a
    /// terminal `EPIPE` when the consumer itself is shut down; else move the
    /// leading bytes and broadcast `OUT` when at least one is moved; else a
    /// clean end of stream when the producer is shut down; else the same
    /// blocking/non-blocking branch as a single pop.
    pub open spec fn pop_slice_tr(self, len: int) -> (ChannelModel, PopSliceOutcome) {
        if self.consumer_shutdown {
            (self, PopSliceOutcome::Epipe)
        } else {
            let n = self.pop_slice_n(len);
            if n > 0 {
                (
                    ChannelModel {
                        buffered: self.buffered.skip(n),
                        consumer_events: self.consumer_events.push(IoEvent::Out),
                        ..self
                    },
                    PopSliceOutcome::Popped(n as usize),
                )
            } else if self.producer_shutdown {
                (self, PopSliceOutcome::Eos)
            } else if self.consumer_nonblocking {
                (self, PopSliceOutcome::Eagain)
            } else {
                (self, PopSliceOutcome::Park)
            }
        }
    }

    /// The channel after pushing each byte of a sequence in turn, one
    /// attempt per byte, with no interleaved pops.
    pub open spec fn push_all_tr(self, items: Seq<u8>) -> ChannelModel
        decreases items.len(),
    {
        if items.len() == 0 {
            self
        } else {
            self.push_tr(items[0]).0.push_all_tr(items.skip(1))
        }
    }

    /// The channel after `k` pop attempts, paired with the bytes they
    /// yielded in order; collection stops early at any attempt that yields
    /// no byte.
    pub open spec fn pop_seq_tr(self, k: nat) -> (ChannelModel, Seq<u8>)
        decreases k,
    {
        if k == 0 {
            (self, Seq::<u8>::empty())
        } else {
            match self.pop_tr().1 {
                PopOutcome::Popped(x) => {
                    let rest = self.pop_tr().0.pop_seq_tr((k - 1) as nat);
                    (rest.0, seq![x] + rest.1)
                }
                _ => (self.pop_tr().0, Seq::<u8>::empty()),
            }
        }
    }

    /// Shutting the producer side down: set its flag (idempotently) and
    /// broadcast `HUP`; buffered data stays for the consumer to drain.  The
    /// embedding also wakes every thread parked on the producer's waiter
    /// queue, so in-flight pushes retry and observe the new state.
    pub open spec fn producer_shutdown_tr(self) -> ChannelModel {
        ChannelModel {
            producer_shutdown: true,
            producer_events: self.producer_events.push(IoEvent::Hup),
            ..self
        }
    }

    /// Shutting the consumer side down: set its flag (idempotently) and
    /// broadcast `RDHUP`; the embedding also wakes every thread parked on
    /// the consumer's waiter queue.
    pub open spec fn consumer_shutdown_tr(self) -> ChannelModel {
        ChannelModel {
            consumer_shutdown: true,
            consumer_events: self.consumer_events.push(IoEvent::RdHup),
            ..self
        }
    }
}

} // verus!
