//! The shared timestamp slot: a single-slot mailbox holding the time of the
//! most recent pending mutation.
//!
//! The mutation issuer stamps the slot immediately before each write; the
//! watch observer reads and clears it when the matching change notification
//! arrives. The slot holds one 64-bit nanosecond timestamp, with zero as the
//! implicit "empty" sentinel, so at most one pending timestamp exists at any
//! time.

use vstd::prelude::*;

verus! {

/// A single shared slot holding the time (in nanoseconds) of the most recent
/// pending mutation, or zero when no mutation is pending.
///
/// Exactly one writer (the mutation issuer) and one reader (the watch
/// observer) are meant to access the slot; mutual exclusion around it is the
/// caller's concern and is not part of this type.
pub struct TimestampStore {
    /// Nanosecond timestamp of the pending mutation; zero means "empty".
    pub pending_ns: u64,
}

impl TimestampStore {
    /// The pending timestamp, if any: zero is the empty sentinel.
    pub open spec fn pending(self) -> Option<u64> {
        if self.pending_ns == 0 {
            None
        } else {
            Some(self.pending_ns)
        }
    }

    /// The state a read-and-clear leaves behind: an empty slot.
    pub open spec fn taken(self) -> TimestampStore {
        TimestampStore { pending_ns: 0 }
    }

    /// What a read-and-clear returns: the pending timestamp, if any.
    pub open spec fn take_result(self) -> Option<u64> {
        self.pending()
    }

    /// An empty slot: no mutation is pending.
    pub fn new() -> (s: TimestampStore)
        ensures
            s.pending() is None,
    {
        TimestampStore { pending_ns: 0 }
    }

    /// Store `ts_ns`, overwriting any existing value. Zero is reserved as the
    /// empty sentinel, so a pending timestamp must be nonzero.
    pub fn record_pending(&mut self, ts_ns: u64)
        requires
            ts_ns != 0,
        ensures
            final(self).pending() == Some(ts_ns),
            final(self).pending_ns == ts_ns,
    {
        self.pending_ns = ts_ns;
    }

    /// Atomically read the current value and reset the slot to empty,
    /// returning the timestamp that was pending, if any.
    pub fn take_if_pending(&mut self) -> (r: Option<u64>)
        ensures
            r == old(self).take_result(),
            *final(self) == old(self).taken(),
            final(self).pending() is None,
    {
        let prior = self.pending_ns;
        self.pending_ns = 0;
        if prior == 0 {
            None
        } else {
            Some(prior)
        }
    }
}

/// Read-and-clear is exactly-once per pending value: a second read-and-clear
/// with no intervening `record_pending` finds the slot empty and returns
/// nothing, whatever the slot held at first.
pub proof fn lemma_take_exactly_once(s: TimestampStore)
    ensures
        s.taken().take_result() is None,
{
}

/// The latency, in nanoseconds, between the recording of a pending mutation
/// and the arrival of its change notification.
pub open spec fn elapsed_ns(recorded_ns: u64, now_ns: u64) -> int {
    now_ns - recorded_ns
}

/// A latency sample is never negative: under a monotonic clock a notification
/// cannot be observed before the write that caused it was recorded.
pub proof fn lemma_sample_nonnegative(recorded_ns: u64, now_ns: u64)
    requires
        recorded_ns <= now_ns,
    ensures
        elapsed_ns(recorded_ns, now_ns) >= 0,
        elapsed_ns(recorded_ns, now_ns) == (now_ns - recorded_ns) as u64,
{
}

} // verus!
