//! Verified core of a bridge from the macOS `FSEvents` notification service to
//! an asynchronous, cancellable stream of change events.
//!
//! The native service delivers batches of notifications to a callback that runs
//! on a thread blocked inside a run loop. This crate holds everything about
//! that bridge that can be stated and proved without the native side:
//!
//! * [`flags`]: the bit sets that travel across the boundary,
//! * [`event`]: the event record and the decoding of one native entry,
//! * [`channel`]: the bounded hand-off into the asynchronous domain,
//! * [`bridge`]: what the callback does with one batch,
//! * [`setup`] and [`shutdown`]: the construction and teardown protocols as
//!   deterministic state machines, driven by whoever owns the native handles,
//! * [`stream`]: the pair that a watch session consists of.
pub mod bridge;
pub mod channel;
pub mod event;
pub mod flags;
pub mod setup;
pub mod shutdown;
pub mod stream;
