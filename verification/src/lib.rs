//! A harness for measuring the end-to-end latency between a mutation applied
//! to a key-value store and the delivery of the corresponding change
//! notification to a subscriber.
//!
//! The heart of the measurement is a single-slot timestamp mailbox shared by
//! the task that issues writes and the task that observes change events
//! ([`store::TimestampStore`]), together with a run coordinator modelled as an
//! explicit state machine ([`harness::Harness`]). The surrounding I/O — the
//! store client, timers, channels — lives outside this crate; the library
//! receives plain timestamps and events and decides everything else.

pub mod benchmark;
pub mod generator;
pub mod harness;
pub mod payload;
pub mod scenario;
pub mod stats;
pub mod store;
