//! The scenario lookup service: a named scenario with its conditions and
//! actions, and a service that answers timestamped requests about one.
//!
//! A request either names a scenario (the service then looks the name up in
//! the key-value store) or carries the whole scenario as text (the service
//! then parses it). Lookup, transport and parsing are outside this crate;
//! what the reply says for a given name and pair of timestamps is decided
//! here.

use vstd::prelude::*;
use vstd::string::StringExecFns;

verus! {

/// A scenario: a name, the conditions under which it applies, and the
/// actions it launches.
pub struct Scenario {
    /// The scenario's name, also its key in the store.
    pub name: String,
    /// Conditions under which the scenario applies.
    pub conditions: Vec<String>,
    /// Actions the scenario launches.
    pub actions: Vec<String>,
}

/// The reply to one scenario request.
pub struct ScenarioResponse {
    /// What was done with the scenario, in words.
    pub status: String,
    /// Whole microseconds between the sender's send time and the service's
    /// handling time.
    pub elapsed_ms: u64,
}

/// The scenario service.
pub struct MyScenarioService {}

impl MyScenarioService {
    /// Answer a request that named a scenario, handled at
    /// `current_timestamp_nanos`: the status names the scenario retrieved,
    /// and the elapsed field reports the whole microseconds since the
    /// sender's `sender_timestamp_nanos`. Clocks are monotonic: the request
    /// cannot be handled before it was sent.
    pub fn send_name(
        &self,
        name: &str,
        sender_timestamp_nanos: u64,
        current_timestamp_nanos: u64,
    ) -> (r: ScenarioResponse)
        requires
            sender_timestamp_nanos <= current_timestamp_nanos,
        ensures
            r.status@ == "Retrieved scenario '"@ + name@ + "'"@,
            r.elapsed_ms == (current_timestamp_nanos - sender_timestamp_nanos) / 1000,
    {
        let mut status = "Retrieved scenario '".to_owned();
        status.append(name);
        status.append("'");
        let elapsed_nanos = current_timestamp_nanos - sender_timestamp_nanos;
        ScenarioResponse { status, elapsed_ms: elapsed_nanos / 1000 }
    }

    /// Answer a request that carried the whole scenario as text, already
    /// parsed into `scenario` and handled at `current_timestamp_nanos`: the
    /// status names the scenario parsed, and the elapsed field reports the
    /// whole microseconds since the sender's `sender_timestamp_nanos`.
    /// Clocks are monotonic: the request cannot be handled before it was
    /// sent.
    pub fn send_yaml(
        &self,
        scenario: &Scenario,
        sender_timestamp_nanos: u64,
        current_timestamp_nanos: u64,
    ) -> (r: ScenarioResponse)
        requires
            sender_timestamp_nanos <= current_timestamp_nanos,
        ensures
            r.status@ == "Parsed scenario '"@ + scenario.name@ + "'"@,
            r.elapsed_ms == (current_timestamp_nanos - sender_timestamp_nanos) / 1000,
    {
        let mut status = "Parsed scenario '".to_owned();
        status.append(scenario.name.as_str());
        status.append("'");
        let elapsed_nanos = current_timestamp_nanos - sender_timestamp_nanos;
        ScenarioResponse { status, elapsed_ms: elapsed_nanos / 1000 }
    }
}

impl Default for MyScenarioService {
    /// A fresh service; it carries no state.
    fn default() -> (r: Self)
        ensures
            r == (MyScenarioService {  }),
    {
        MyScenarioService {}
    }
}

} // verus!
