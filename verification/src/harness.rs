//! The run coordinator, modelled as an explicit state machine.
//!
//! A run passes through four phases: an initial placeholder write and watch
//! subscription (`Initializing`), the measurement itself (`Running`), an
//! ordered teardown once any task finishes or the global timeout fires
//! (`Draining`), and the final state (`Terminated`). The surrounding tasks —
//! generator, issuer, observer, timer — report what happened as a
//! [`HarnessEvent`]; the [`Harness`] decides the next state, emits latency
//! samples, and tells the caller what to do next as an [`Action`].

use vstd::prelude::*;
use crate::store::TimestampStore;

verus! {

/// The phase of a harness run.
#[derive(Clone, Copy, Debug, PartialEq, Eq)]
pub enum Phase {
    /// The initial value is being written and the watch subscription set up.
    Initializing,
    /// Mutations are being generated, issued and observed.
    Running,
    /// New work has stopped; in-flight operations may still finish.
    Draining,
    /// The run is over and the outcome is recorded.
    Terminated,
}

/// The tagged reason a harness run ended.
#[derive(Clone, Copy, Debug, PartialEq, Eq)]
pub enum RunOutcome {
    /// The watch subscription stream ended or broke.
    WatchTaskEnded,
    /// The mutation issuer drained its queue and finished.
    IssuerTaskEnded,
    /// The global timeout elapsed first.
    TimedOut,
}

/// Something one of the concurrent tasks reports to the coordinator.
#[derive(Clone, Copy, Debug, PartialEq, Eq)]
pub enum HarnessEvent {
    /// The watch subscription is acknowledged as active.
    SubscriptionActive,
    /// The issuer captured `now_ns` immediately before issuing a write and
    /// recorded it in the timestamp slot.
    MutationIssued { now_ns: u64 },
    /// The write the issuer last issued came back, succeeding or failing as
    /// `write_ok` says. A failed write is logged and never fatal: the issuer
    /// carries on with the next request.
    WriteCompleted { write_ok: bool },
    /// A change notification arrived from the watch stream at `now_ns`.
    ChangeEvent { now_ns: u64 },
    /// The watch subscription stream ended or reported an error.
    WatchEnded,
    /// The issuer's input queue was closed and drained.
    IssuerEnded,
    /// The global timeout elapsed.
    TimeoutFired,
    /// The teardown grace period is over and all tasks have stopped.
    DrainComplete,
}

/// What the caller must do after handing an event to the coordinator.
#[derive(Clone, Copy, Debug, PartialEq, Eq)]
pub enum Action {
    /// Keep the tasks running.
    Continue,
    /// The run is live: start generating mutations.
    StartMutations,
    /// Stop feeding new work and begin the ordered teardown.
    BeginDrain,
    /// Release all resources; the run is over.
    Shutdown,
}

/// The mathematical state of a run: the phase, the pending timestamp slot,
/// the latency samples (in nanoseconds, in arrival order) emitted so far,
/// how many writes succeeded and failed, and the recorded outcome.
pub struct RunModel {
    /// Current phase of the run.
    pub phase: Phase,
    /// The pending-timestamp slot shared by issuer and observer.
    pub slot: Option<u64>,
    /// Latency samples emitted so far, in arrival order, in nanoseconds.
    pub samples: Seq<u64>,
    /// Mutation writes that succeeded.
    pub writes_ok: nat,
    /// Mutation writes that failed (logged, never fatal).
    pub writes_failed: nat,
    /// The termination cause, once determined.
    pub outcome: Option<RunOutcome>,
}

/// The state a run starts in: initializing, empty slot, no samples, no
/// writes, no outcome.
pub open spec fn init_model() -> RunModel {
    RunModel {
        phase: Phase::Initializing,
        slot: None,
        samples: Seq::empty(),
        writes_ok: 0,
        writes_failed: 0,
        outcome: None,
    }
}

/// What the coordinator assumes of an event before taking it: clocks are
/// monotonic (a notification is never observed before the pending write was
/// recorded), a recorded timestamp is nonzero (zero is the slot's empty
/// sentinel), and the write counters still fit in a machine word.
pub open spec fn event_permitted(m: RunModel, e: HarnessEvent) -> bool {
    match e {
        HarnessEvent::MutationIssued { now_ns } => now_ns != 0,
        HarnessEvent::WriteCompleted { .. } => {
            &&& m.writes_ok < u64::MAX
            &&& m.writes_failed < u64::MAX
        },
        HarnessEvent::ChangeEvent { now_ns } => match m.slot {
            Some(t) => t <= now_ns,
            None => true,
        },
        _ => true,
    }
}

/// The latency sample an event causes to be emitted, if any: a change
/// notification that finds a pending timestamp yields the elapsed
/// nanoseconds; every other event, and a notification that finds the slot
/// empty (for instance one caused by the coordinator's own initial write),
/// yields nothing.
pub open spec fn emitted_sample(m: RunModel, e: HarnessEvent) -> Option<u64> {
    match e {
        HarnessEvent::ChangeEvent { now_ns } => {
            if m.phase is Running || m.phase is Draining {
                match m.slot {
                    Some(t) => Some((now_ns - t) as u64),
                    None => None,
                }
            } else {
                None
            }
        },
        _ => None,
    }
}

/// The coordinator's transition function: the state after taking one event.
pub open spec fn step_model(m: RunModel, e: HarnessEvent) -> RunModel {
    match e {
        HarnessEvent::SubscriptionActive => {
            if m.phase is Initializing {
                RunModel { phase: Phase::Running, ..m }
            } else {
                m
            }
        },
        HarnessEvent::MutationIssued { now_ns } => {
            if m.phase is Running {
                RunModel { slot: Some(now_ns), ..m }
            } else {
                m
            }
        },
        HarnessEvent::WriteCompleted { write_ok } => {
            if m.phase is Running || m.phase is Draining {
                RunModel {
                    writes_ok: if write_ok { m.writes_ok + 1 } else { m.writes_ok },
                    writes_failed: if write_ok { m.writes_failed } else { m.writes_failed + 1 },
                    ..m
                }
            } else {
                m
            }
        },
        HarnessEvent::ChangeEvent { now_ns } => {
            if m.phase is Running || m.phase is Draining {
                match m.slot {
                    Some(t) => RunModel {
                        slot: None,
                        samples: m.samples.push((now_ns - t) as u64),
                        ..m
                    },
                    None => m,
                }
            } else {
                m
            }
        },
        HarnessEvent::WatchEnded => {
            if m.phase is Initializing {
                // A failure establishing the subscription is fatal: the run
                // aborts before it ever starts running.
                RunModel { phase: Phase::Terminated, outcome: Some(RunOutcome::WatchTaskEnded), ..m }
            } else if m.phase is Running {
                RunModel { phase: Phase::Draining, outcome: Some(RunOutcome::WatchTaskEnded), ..m }
            } else {
                m
            }
        },
        HarnessEvent::IssuerEnded => {
            if m.phase is Running {
                RunModel { phase: Phase::Draining, outcome: Some(RunOutcome::IssuerTaskEnded), ..m }
            } else {
                m
            }
        },
        HarnessEvent::TimeoutFired => {
            if m.phase is Running {
                RunModel { phase: Phase::Draining, outcome: Some(RunOutcome::TimedOut), ..m }
            } else {
                m
            }
        },
        HarnessEvent::DrainComplete => {
            if m.phase is Draining {
                RunModel { phase: Phase::Terminated, ..m }
            } else {
                m
            }
        },
    }
}

/// What the caller must do after the event: start mutations when the run
/// becomes live, begin the teardown when it starts draining, shut down when
/// it terminates, and otherwise carry on.
pub open spec fn action_of(m: RunModel, e: HarnessEvent) -> Action {
    let next = step_model(m, e);
    if !(m.phase is Running) && next.phase is Running {
        Action::StartMutations
    } else if !(m.phase is Draining) && next.phase is Draining {
        Action::BeginDrain
    } else if !(m.phase is Terminated) && next.phase is Terminated {
        Action::Shutdown
    } else {
        Action::Continue
    }
}

/// The run coordinator's state: the executable counterpart of [`RunModel`].
///
/// The surrounding program shares one `Harness` (behind its own mutual
/// exclusion) among the generator, issuer, observer and timer tasks; each
/// task reports what happened through [`Harness::step`] and performs the
/// returned [`Action`].
pub struct Harness {
    /// Current phase of the run.
    pub phase: Phase,
    /// The pending-timestamp slot shared by issuer and observer.
    pub store: TimestampStore,
    /// Latency samples emitted so far, in nanoseconds, in arrival order.
    pub samples: Vec<u64>,
    /// Mutation writes that succeeded.
    pub writes_ok: u64,
    /// Mutation writes that failed.
    pub writes_failed: u64,
    /// The termination cause, once determined.
    pub outcome: Option<RunOutcome>,
}

impl View for Harness {
    type V = RunModel;

    open spec fn view(&self) -> RunModel {
        RunModel {
            phase: self.phase,
            slot: self.store.pending(),
            samples: self.samples@,
            writes_ok: self.writes_ok as nat,
            writes_failed: self.writes_failed as nat,
            outcome: self.outcome,
        }
    }
}

impl Harness {
    /// A fresh run, about to write the initial placeholder value.
    pub fn new() -> (h: Harness)
        ensures
            h@ == init_model(),
    {
        let h = Harness {
            phase: Phase::Initializing,
            store: TimestampStore::new(),
            samples: Vec::new(),
            writes_ok: 0,
            writes_failed: 0,
            outcome: None,
        };
        proof {
            assert(h@ =~= init_model());
        }
        h
    }

    /// Take one event: move to the next state exactly as [`step_model`]
    /// says, return the latency sample the event emitted (if any) and the
    /// action the caller must now perform.
    pub fn step(&mut self, event: HarnessEvent) -> (r: (Option<u64>, Action))
        requires
            event_permitted(old(self)@, event),
        ensures
            final(self)@ == step_model(old(self)@, event),
            r.0 == emitted_sample(old(self)@, event),
            r.1 == action_of(old(self)@, event),
    {
        match event {
            HarnessEvent::SubscriptionActive => {
                match self.phase {
                    Phase::Initializing => {
                        self.phase = Phase::Running;
                        proof {
                            assert(self@ =~= step_model(old(self)@, event));
                        }
                        (None, Action::StartMutations)
                    },
                    _ => (None, Action::Continue),
                }
            },
            HarnessEvent::MutationIssued { now_ns } => {
                match self.phase {
                    Phase::Running => {
                        self.store.record_pending(now_ns);
                        proof {
                            assert(self@ =~= step_model(old(self)@, event));
                        }
                        (None, Action::Continue)
                    },
                    _ => (None, Action::Continue),
                }
            },
            HarnessEvent::WriteCompleted { write_ok } => {
                let live = match self.phase {
                    Phase::Running => true,
                    Phase::Draining => true,
                    _ => false,
                };
                if live {
                    if write_ok {
                        self.writes_ok = self.writes_ok + 1;
                    } else {
                        self.writes_failed = self.writes_failed + 1;
                    }
                    proof {
                        assert(self@ =~= step_model(old(self)@, event));
                    }
                }
                (None, Action::Continue)
            },
            HarnessEvent::ChangeEvent { now_ns } => {
                let live = match self.phase {
                    Phase::Running => true,
                    Phase::Draining => true,
                    _ => false,
                };
                if live {
                    match self.store.take_if_pending() {
                        Some(t) => {
                            let sample = now_ns - t;
                            self.samples.push(sample);
                            proof {
                                assert(self@ =~= step_model(old(self)@, event));
                            }
                            (Some(sample), Action::Continue)
                        },
                        None => {
                            proof {
                                assert(self@ =~= step_model(old(self)@, event));
                            }
                            (None, Action::Continue)
                        },
                    }
                } else {
                    (None, Action::Continue)
                }
            },
            HarnessEvent::WatchEnded => {
                match self.phase {
                    Phase::Initializing => {
                        self.phase = Phase::Terminated;
                        self.outcome = Some(RunOutcome::WatchTaskEnded);
                        proof {
                            assert(self@ =~= step_model(old(self)@, event));
                        }
                        (None, Action::Shutdown)
                    },
                    Phase::Running => {
                        self.phase = Phase::Draining;
                        self.outcome = Some(RunOutcome::WatchTaskEnded);
                        proof {
                            assert(self@ =~= step_model(old(self)@, event));
                        }
                        (None, Action::BeginDrain)
                    },
                    _ => (None, Action::Continue),
                }
            },
            HarnessEvent::IssuerEnded => {
                match self.phase {
                    Phase::Running => {
                        self.phase = Phase::Draining;
                        self.outcome = Some(RunOutcome::IssuerTaskEnded);
                        proof {
                            assert(self@ =~= step_model(old(self)@, event));
                        }
                        (None, Action::BeginDrain)
                    },
                    _ => (None, Action::Continue),
                }
            },
            HarnessEvent::TimeoutFired => {
                match self.phase {
                    Phase::Running => {
                        self.phase = Phase::Draining;
                        self.outcome = Some(RunOutcome::TimedOut);
                        proof {
                            assert(self@ =~= step_model(old(self)@, event));
                        }
                        (None, Action::BeginDrain)
                    },
                    _ => (None, Action::Continue),
                }
            },
            HarnessEvent::DrainComplete => {
                match self.phase {
                    Phase::Draining => {
                        self.phase = Phase::Terminated;
                        proof {
                            assert(self@ =~= step_model(old(self)@, event));
                        }
                        (None, Action::Shutdown)
                    },
                    _ => (None, Action::Continue),
                }
            },
        }
    }
}

/// A well-formed run state: no outcome is recorded while the run is still
/// initializing or running, and one is recorded by the time it drains or
/// terminates.
pub open spec fn wf(m: RunModel) -> bool {
    &&& (m.phase is Initializing || m.phase is Running) ==> m.outcome is None
    &&& (m.phase is Draining || m.phase is Terminated) ==> m.outcome is Some
}

/// The outcome is determined once, at shutdown: every step keeps a run
/// state well formed, and once an outcome is recorded no later event
/// changes it.
pub proof fn lemma_outcome_determined_once(m: RunModel, e: HarnessEvent)
    requires
        wf(m),
    ensures
        wf(step_model(m, e)),
        m.outcome is Some ==> step_model(m, e).outcome == m.outcome,
{
}

/// The state after taking a whole sequence of events, first event first.
pub open spec fn run_model(m: RunModel, events: Seq<HarnessEvent>) -> RunModel
    decreases events.len(),
{
    if events.len() == 0 {
        m
    } else {
        run_model(step_model(m, events[0]), events.drop_first())
    }
}

/// The event sequence of a faultless measurement: for each pair `(t, a)` of
/// a pre-write timestamp `t` and a notification arrival time `a`, the issuer
/// records `t`, the write succeeds, and the store delivers exactly one
/// change notification, observed at `a`, before the next mutation is issued.
pub open spec fn delivered_trace(pairs: Seq<(u64, u64)>) -> Seq<HarnessEvent>
    decreases pairs.len(),
{
    if pairs.len() == 0 {
        Seq::empty()
    } else {
        seq![
            HarnessEvent::MutationIssued { now_ns: pairs[0].0 },
            HarnessEvent::WriteCompleted { write_ok: true },
            HarnessEvent::ChangeEvent { now_ns: pairs[0].1 },
        ] + delivered_trace(pairs.drop_first())
    }
}

/// The latency each pair of a faultless measurement contributes, in order.
pub open spec fn latencies_of(pairs: Seq<(u64, u64)>) -> Seq<u64> {
    Seq::new(pairs.len(), |i: int| (pairs[i].1 - pairs[i].0) as u64)
}

/// No loss, no duplication: from any live state with an empty slot, a run of
/// N mutations (N >= 0) in which no write fails and the store delivers one
/// notification per write emits exactly N latency samples — one per
/// mutation, in the order the mutations were issued — and leaves the run
/// live with the slot empty again. Clocks are monotonic: no notification
/// arrives before the write it answers was recorded.
pub proof fn lemma_no_loss_no_duplication(m: RunModel, pairs: Seq<(u64, u64)>)
    requires
        m.phase is Running,
        m.slot is None,
        forall|i: int| 0 <= i < pairs.len() ==> #[trigger] pairs[i].0 <= pairs[i].1,
    ensures
        run_model(m, delivered_trace(pairs)).samples =~= m.samples + latencies_of(pairs),
        run_model(m, delivered_trace(pairs)).samples.len() == m.samples.len() + pairs.len(),
        run_model(m, delivered_trace(pairs)).writes_ok == m.writes_ok + pairs.len(),
        run_model(m, delivered_trace(pairs)).writes_failed == m.writes_failed,
        run_model(m, delivered_trace(pairs)).phase is Running,
        run_model(m, delivered_trace(pairs)).slot is None,
        run_model(m, delivered_trace(pairs)).outcome == m.outcome,
    decreases pairs.len(),
{
    let trace = delivered_trace(pairs);
    if pairs.len() == 0 {
        assert(run_model(m, trace).samples =~= m.samples + latencies_of(pairs));
    } else {
        let issue = HarnessEvent::MutationIssued { now_ns: pairs[0].0 };
        let wrote = HarnessEvent::WriteCompleted { write_ok: true };
        let notify = HarnessEvent::ChangeEvent { now_ns: pairs[0].1 };
        let rest = delivered_trace(pairs.drop_first());
        let mid1 = seq![wrote, notify] + rest;
        let mid2 = seq![notify] + rest;
        let m1 = step_model(m, issue);
        let m2 = step_model(m1, wrote);
        let m3 = step_model(m2, notify);
        assert(trace.len() > 0);
        assert(trace[0] == issue);
        assert(run_model(m, trace) == run_model(m1, trace.drop_first()));
        assert(trace.drop_first() =~= mid1);
        assert(mid1.len() > 0 && mid1[0] == wrote);
        assert(run_model(m1, mid1) == run_model(m2, mid1.drop_first()));
        assert(mid1.drop_first() =~= mid2);
        assert(mid2.len() > 0 && mid2[0] == notify);
        assert(run_model(m2, mid2) == run_model(m3, mid2.drop_first()));
        assert(mid2.drop_first() =~= rest);
        assert(run_model(m, trace) == run_model(m3, rest));
        assert(m3.samples =~= m.samples.push((pairs[0].1 - pairs[0].0) as u64));
        lemma_no_loss_no_duplication(m3, pairs.drop_first());
        assert(run_model(m3, rest).samples =~= m3.samples + latencies_of(pairs.drop_first()));
        assert(m3.samples + latencies_of(pairs.drop_first()) =~= m.samples + latencies_of(pairs));
    }
}

/// A timeout is a planned termination path, not an error: if the global
/// timeout fires while the run is live and no sample has yet been emitted,
/// the outcome is `TimedOut` and the run still has zero samples.
pub proof fn lemma_timeout_without_samples(m: RunModel)
    requires
        m.phase is Running,
        m.samples.len() == 0,
    ensures
        step_model(m, HarnessEvent::TimeoutFired).outcome == Some(RunOutcome::TimedOut),
        step_model(m, HarnessEvent::TimeoutFired).samples.len() == 0,
        step_model(m, HarnessEvent::TimeoutFired).phase is Draining,
{
}

} // verus!
