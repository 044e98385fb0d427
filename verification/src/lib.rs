//! A bounded, unidirectional, single-producer/single-consumer byte channel,
//! as used to back pipe-like and socket-like descriptors: a fixed-capacity
//! ring buffer shared by a producer side and a consumer side, half-close
//! (`shutdown`) on either side, per-side non-blocking mode, and readiness
//! events (`IN`/`OUT`/`HUP`/`RDHUP`) broadcast to pollers.
//!
//! The crate verifies the channel's whole decision logic against a
//! mathematical transition model ([`model::ChannelModel`]): what each
//! operation does to the buffered bytes, when it fails with `EPIPE` or
//! `EAGAIN`, when a blocking caller must park and retry, and which readiness
//! event is broadcast after each mutation.  Parking and waking themselves
//! (mutexes, waiter queues) belong to the embedding: a blocking operation
//! surfaces a `Park` outcome and the embedding retries it after a wakeup.

pub mod channel;
pub mod endpoint;
pub mod events;
pub mod laws;
pub mod model;
pub mod outcome;
pub mod state;
pub mod store;
