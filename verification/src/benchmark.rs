//! The round-trip benchmark receiver: a request carries the sender's send
//! time, and the reply reports how many microseconds elapsed until the
//! receiver handled it. The transport that delivers requests and replies is
//! outside this crate; the receiver's decision — what a reply holds for a
//! given pair of timestamps — is here.

use vstd::prelude::*;

verus! {

/// The reply to one benchmark request.
pub struct BenchmarkResponse {
    /// Microseconds between the sender's send time and the receiver's
    /// handling time.
    pub elapsed_microseconds: u64,
    /// Whether the request was handled; a handled request always reports
    /// success.
    pub success: bool,
}

/// The benchmark receiver.
pub struct BenchmarkServer {}

impl BenchmarkServer {
    /// Handle one timestamped request received at `current_timestamp_nanos`:
    /// report the elapsed time, in whole microseconds, since the sender's
    /// `sender_timestamp_nanos`. Clocks are monotonic: the request cannot be
    /// handled before it was sent.
    pub fn send_timestamp(
        &self,
        sender_timestamp_nanos: u64,
        current_timestamp_nanos: u64,
    ) -> (r: BenchmarkResponse)
        requires
            sender_timestamp_nanos <= current_timestamp_nanos,
        ensures
            r.elapsed_microseconds == (current_timestamp_nanos - sender_timestamp_nanos) / 1000,
            r.success,
    {
        let elapsed_nanos = current_timestamp_nanos - sender_timestamp_nanos;
        BenchmarkResponse { elapsed_microseconds: elapsed_nanos / 1000, success: true }
    }
}

impl Default for BenchmarkServer {
    /// A fresh receiver; it carries no state.
    fn default() -> (r: Self)
        ensures
            r == (BenchmarkServer {  }),
    {
        BenchmarkServer {}
    }
}

} // verus!
