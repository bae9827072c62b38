//! The benchmark driver, written as a state machine.
//!
//! One run of the benchmark is a fixed sequence of phases: remove a
//! stale socket artifact (Unix transport only), start the echo server,
//! wait a grace period, connect, issue a batch of warmup calls whose
//! outcomes are discarded, issue the timed calls one at a time, stop the
//! server, and remove the socket artifact again (Unix only). The driver
//! decides; the surrounding process performs each `Action` it hands out
//! — socket work, the RPC calls, the clock — and reports the outcome
//! back as an `Event`.
//!
//! A failure to bind aborts the run before any measurement; a failure to
//! connect or a failed timed call aborts it with no partial result; a
//! failed warmup call is deliberately ignored. Every aborted Unix run
//! still passes through the final cleanup phase, so the socket artifact
//! never survives a run.

use vstd::prelude::*;

verus! {

/// Which transport a run exercises.
#[derive(Clone, Copy, Debug, PartialEq, Eq, Structural)]
pub enum Transport {
    /// A filesystem-addressed (Unix domain) socket.
    Unix,
    /// A host-and-port (TCP) socket.
    Tcp,
}

/// Number of warmup calls issued, and discarded, before the timed phase.
pub const WARMUP_CALLS: usize = 10;

/// Grace period in milliseconds between starting the server and the
/// first connection attempt.
pub const GRACE_PERIOD_MILLIS: u64 = 100;

/// Number of timed calls in a standard run.
pub const DEFAULT_ITERATIONS: usize = 1000;

/// What the surrounding process must perform next for the driver.
#[derive(Clone, Copy, Debug, PartialEq, Eq, Structural)]
pub enum Action {
    /// Remove the socket artifact at the transport's filesystem path;
    /// its absence is not an error.
    RemoveSocketFile,
    /// Bind the echo server to the address and start serving in the
    /// background.
    StartServer,
    /// Wait the grace period.
    SleepGrace,
    /// Open the one client connection.
    Connect,
    /// Issue one warmup call; the outcome is discarded.
    CallWarmup,
    /// Issue timed call `index` (counted from zero) and measure the
    /// elapsed time around it.
    CallTimed { index: usize },
    /// Stop the server; abrupt cancellation is acceptable.
    StopServer,
}

/// The outcome of the action the driver handed out last.
#[derive(Clone, Copy, Debug, PartialEq, Eq, Structural)]
pub enum Event {
    /// The action finished; the answer to the cleanup steps, the grace
    /// period and the server stop, none of which can fail the run.
    Completed,
    /// The server is bound and serving.
    StartOk,
    /// The server could not bind or start.
    StartFailed,
    /// The client connection is open.
    ConnectOk,
    /// The client could not connect.
    ConnectFailed,
    /// A warmup call returned; success and failure are deliberately not
    /// told apart.
    WarmupReturned,
    /// A timed call returned after the given elapsed time.
    TimedOk { nanos: u64 },
    /// A timed call failed; the run is aborted with no partial result.
    TimedFailed,
}

/// Why a run failed.
#[derive(Clone, Copy, Debug, PartialEq, Eq, Structural)]
pub enum BenchError {
    /// The server could not be bound or started.
    Setup,
    /// The client could not reach the server.
    Connect,
    /// A timed call failed.
    Call,
}

/// Where a run stands.
#[derive(Clone, Copy, Debug, PartialEq, Eq, Structural)]
pub enum Phase {
    /// Unix only: removing a stale socket artifact before binding.
    CleaningStale,
    /// Starting the server.
    Starting,
    /// Waiting the grace period.
    GraceWait,
    /// Opening the client connection.
    Connecting,
    /// Issuing warmup calls.
    Warming,
    /// Issuing timed calls.
    Measuring,
    /// Stopping the server.
    Stopping,
    /// Unix only: removing the socket artifact at the end of the run.
    CleaningUp,
    /// The run is over.
    Done,
}

/// One benchmark run: the driver's whole state.
pub struct Driver {
    /// The transport under test.
    pub transport: Transport,
    /// How many timed calls the run makes.
    pub iterations: usize,
    /// Warmup calls answered so far.
    pub warmup_done: usize,
    /// Timed calls answered so far.
    pub timed_done: usize,
    /// One elapsed time per answered timed call, in call order.
    pub latencies: Vec<u64>,
    /// The failure that is aborting the run, if any.
    pub failure: Option<BenchError>,
    /// Where the run stands.
    pub phase: Phase,
}

impl Driver {
    /// The driver's invariant.
    pub open spec fn wf(self) -> bool {
        &&& self.latencies@.len() == self.timed_done
        &&& self.timed_done <= self.iterations
        &&& self.warmup_done <= WARMUP_CALLS
        &&& ((self.phase == Phase::CleaningStale || self.phase == Phase::CleaningUp)
            ==> self.transport == Transport::Unix)
        &&& (self.phase == Phase::Warming ==> self.warmup_done < WARMUP_CALLS
            && self.timed_done == 0)
        &&& (self.phase == Phase::Measuring ==> self.warmup_done == WARMUP_CALLS
            && self.timed_done < self.iterations)
        &&& (match self.phase {
            Phase::CleaningStale | Phase::Starting | Phase::GraceWait | Phase::Connecting =>
                self.warmup_done == 0 && self.timed_done == 0 && self.failure is None,
            Phase::Warming | Phase::Measuring => self.failure is None,
            _ => true,
        })
        &&& (((self.phase == Phase::Stopping || self.phase == Phase::CleaningUp || self.phase
            == Phase::Done) && self.failure is None) ==> self.timed_done == self.iterations)
    }

    /// The pending action of each phase; `None` once the run is over.
    pub open spec fn spec_next_action(self) -> Option<Action> {
        match self.phase {
            Phase::CleaningStale => Some(Action::RemoveSocketFile),
            Phase::Starting => Some(Action::StartServer),
            Phase::GraceWait => Some(Action::SleepGrace),
            Phase::Connecting => Some(Action::Connect),
            Phase::Warming => Some(Action::CallWarmup),
            Phase::Measuring => Some(Action::CallTimed { index: self.timed_done }),
            Phase::Stopping => Some(Action::StopServer),
            Phase::CleaningUp => Some(Action::RemoveSocketFile),
            Phase::Done => None,
        }
    }

    /// Whether `e` is a possible outcome of the pending action.
    pub open spec fn event_fits(self, e: Event) -> bool {
        match self.phase {
            Phase::CleaningStale | Phase::GraceWait | Phase::Stopping | Phase::CleaningUp => e
                == Event::Completed,
            Phase::Starting => e == Event::StartOk || e == Event::StartFailed,
            Phase::Connecting => e == Event::ConnectOk || e == Event::ConnectFailed,
            Phase::Warming => e == Event::WarmupReturned,
            Phase::Measuring => e is TimedOk || e == Event::TimedFailed,
            Phase::Done => false,
        }
    }
}

/// The transport and the iteration count never change within a run.
pub open spec fn same_run(pre: Driver, post: Driver) -> bool {
    post.transport == pre.transport && post.iterations == pre.iterations
}

/// The call counters and the sample are untouched.
pub open spec fn counters_unchanged(pre: Driver, post: Driver) -> bool {
    &&& post.warmup_done == pre.warmup_done
    &&& post.timed_done == pre.timed_done
    &&& post.latencies@ == pre.latencies@
}

/// The terminal phase of a failed run: the server is stopped first where
/// one is running, and a Unix run always removes the socket artifact
/// before finishing.
pub open spec fn after_stop_phase(pre: Driver) -> Phase {
    if pre.transport == Transport::Unix {
        Phase::CleaningUp
    } else {
        Phase::Done
    }
}

/// The whole transition relation of the driver: how one answered event
/// moves the run forward.
pub open spec fn step_rel(pre: Driver, e: Event, post: Driver) -> bool {
    &&& same_run(pre, post)
    &&& match pre.phase {
        Phase::CleaningStale => {
            &&& counters_unchanged(pre, post)
            &&& post.failure is None
            &&& post.phase == Phase::Starting
        },
        Phase::Starting => {
            &&& counters_unchanged(pre, post)
            &&& if e == Event::StartOk {
                post.failure is None && post.phase == Phase::GraceWait
            } else {
                // the server never ran: nothing to stop, but a Unix run
                // still removes the socket artifact
                post.failure == Some(BenchError::Setup) && post.phase == after_stop_phase(pre)
            }
        },
        Phase::GraceWait => {
            &&& counters_unchanged(pre, post)
            &&& post.failure is None
            &&& post.phase == Phase::Connecting
        },
        Phase::Connecting => {
            &&& counters_unchanged(pre, post)
            &&& if e == Event::ConnectOk {
                post.failure is None && post.phase == Phase::Warming
            } else {
                post.failure == Some(BenchError::Connect) && post.phase == Phase::Stopping
            }
        },
        Phase::Warming => {
            &&& post.warmup_done == pre.warmup_done + 1
            &&& post.timed_done == pre.timed_done
            &&& post.latencies@ == pre.latencies@
            &&& post.failure is None
            &&& post.phase == (if pre.warmup_done + 1 < WARMUP_CALLS {
                Phase::Warming
            } else if pre.iterations > 0 {
                Phase::Measuring
            } else {
                Phase::Stopping
            })
        },
        Phase::Measuring => match e {
            Event::TimedOk { nanos } => {
                &&& post.latencies@ == pre.latencies@.push(nanos)
                &&& post.timed_done == pre.timed_done + 1
                &&& post.warmup_done == pre.warmup_done
                &&& post.failure is None
                &&& post.phase == (if pre.timed_done + 1 < pre.iterations {
                    Phase::Measuring
                } else {
                    Phase::Stopping
                })
            },
            _ => {
                &&& counters_unchanged(pre, post)
                &&& post.failure == Some(BenchError::Call)
                &&& post.phase == Phase::Stopping
            },
        },
        Phase::Stopping => {
            &&& counters_unchanged(pre, post)
            &&& post.failure == pre.failure
            &&& post.phase == after_stop_phase(pre)
        },
        Phase::CleaningUp => {
            &&& counters_unchanged(pre, post)
            &&& post.failure == pre.failure
            &&& post.phase == Phase::Done
        },
        Phase::Done => false,
    }
}

impl Driver {
    /// A fresh run over the given transport, making `iterations` timed
    /// calls. A Unix run first clears any stale socket artifact; a TCP
    /// run starts with the server.
    pub fn new(transport: Transport, iterations: usize) -> (d: Driver)
        ensures
            d.wf(),
            d.transport == transport,
            d.iterations == iterations,
            d.warmup_done == 0,
            d.timed_done == 0,
            d.latencies@.len() == 0,
            d.failure is None,
            d.phase == (if transport == Transport::Unix {
                Phase::CleaningStale
            } else {
                Phase::Starting
            }),
    {
        let phase = if transport == Transport::Unix {
            Phase::CleaningStale
        } else {
            Phase::Starting
        };
        Driver {
            transport,
            iterations,
            warmup_done: 0,
            timed_done: 0,
            latencies: Vec::new(),
            failure: None,
            phase,
        }
    }

    /// What the surrounding process must do next; `None` once the run is
    /// over.
    pub fn next_action(&self) -> (a: Option<Action>)
        ensures
            a == self.spec_next_action(),
    {
        match self.phase {
            Phase::CleaningStale => Some(Action::RemoveSocketFile),
            Phase::Starting => Some(Action::StartServer),
            Phase::GraceWait => Some(Action::SleepGrace),
            Phase::Connecting => Some(Action::Connect),
            Phase::Warming => Some(Action::CallWarmup),
            Phase::Measuring => Some(Action::CallTimed { index: self.timed_done }),
            Phase::Stopping => Some(Action::StopServer),
            Phase::CleaningUp => Some(Action::RemoveSocketFile),
            Phase::Done => None,
        }
    }

    /// Advance the run on the outcome of the pending action.
    pub fn on_event(&mut self, e: Event)
        requires
            old(self).wf(),
            old(self).event_fits(e),
        ensures
            final(self).wf(),
            step_rel(*old(self), e, *final(self)),
    {
        match self.phase {
            Phase::CleaningStale => {
                self.phase = Phase::Starting;
            },
            Phase::Starting => {
                if e == Event::StartOk {
                    self.phase = Phase::GraceWait;
                } else {
                    self.failure = Some(BenchError::Setup);
                    self.phase = if self.transport == Transport::Unix {
                        Phase::CleaningUp
                    } else {
                        Phase::Done
                    };
                }
            },
            Phase::GraceWait => {
                self.phase = Phase::Connecting;
            },
            Phase::Connecting => {
                if e == Event::ConnectOk {
                    self.phase = Phase::Warming;
                } else {
                    self.failure = Some(BenchError::Connect);
                    self.phase = Phase::Stopping;
                }
            },
            Phase::Warming => {
                self.warmup_done = self.warmup_done + 1;
                self.phase = if self.warmup_done < WARMUP_CALLS {
                    Phase::Warming
                } else if self.iterations > 0 {
                    Phase::Measuring
                } else {
                    Phase::Stopping
                };
            },
            Phase::Measuring => {
                match e {
                    Event::TimedOk { nanos } => {
                        self.latencies.push(nanos);
                        self.timed_done = self.timed_done + 1;
                        self.phase = if self.timed_done < self.iterations {
                            Phase::Measuring
                        } else {
                            Phase::Stopping
                        };
                    },
                    _ => {
                        self.failure = Some(BenchError::Call);
                        self.phase = Phase::Stopping;
                    },
                }
            },
            Phase::Stopping => {
                self.phase = if self.transport == Transport::Unix {
                    Phase::CleaningUp
                } else {
                    Phase::Done
                };
            },
            Phase::CleaningUp => {
                self.phase = Phase::Done;
            },
            Phase::Done => {
                // unreachable: no event fits the terminal phase
            },
        }
    }

    /// Whether the run is over.
    pub fn is_done(&self) -> (b: bool)
        ensures
            b == (self.phase == Phase::Done),
    {
        self.phase == Phase::Done
    }

    /// The outcome of a finished run: the complete sample in call order,
    /// or the failure that aborted the run.
    pub fn outcome(&self) -> (r: Result<&Vec<u64>, BenchError>)
        requires
            self.phase == Phase::Done,
        ensures
            match self.failure {
                Some(err) => r == Result::<&Vec<u64>, BenchError>::Err(err),
                None => r is Ok && r->Ok_0@ == self.latencies@,
            },
    {
        match self.failure {
            Some(err) => Err(err),
            None => Ok(&self.latencies),
        }
    }
}

/// A run that finished without failure answered exactly `iterations`
/// timed calls and holds one latency for each; in particular a run asked
/// for zero iterations ends with the empty sample.
pub proof fn lemma_done_sample_size(d: Driver)
    requires
        d.wf(),
        d.phase == Phase::Done,
        d.failure is None,
    ensures
        d.latencies@.len() == d.iterations,
        d.iterations == 0 ==> d.latencies@.len() == 0,
{
}

/// A Unix-socket run reaches its final state only as the answer to the
/// removal of the socket artifact: whether the run succeeded or was
/// aborted at any phase, the last action it performs is
/// `RemoveSocketFile`, so the artifact does not survive the run.
pub proof fn lemma_unix_run_ends_with_cleanup(pre: Driver, e: Event, post: Driver)
    requires
        pre.wf(),
        step_rel(pre, e, post),
        pre.transport == Transport::Unix,
        post.phase == Phase::Done,
    ensures
        pre.phase == Phase::CleaningUp,
        pre.spec_next_action() == Some(Action::RemoveSocketFile),
{
}

/// A TCP run never touches the filesystem: no phase of it hands out the
/// socket-file removal.
pub proof fn lemma_tcp_run_never_removes_socket(d: Driver)
    requires
        d.wf(),
        d.transport == Transport::Tcp,
    ensures
        d.spec_next_action() != Some(Action::RemoveSocketFile),
{
}

/// The timed phase is strictly serial: each answered timed call appends
/// exactly its own latency, keeping the sample in call-issue order.
pub proof fn lemma_sample_in_call_order(pre: Driver, nanos: u64, post: Driver)
    requires
        pre.wf(),
        pre.phase == Phase::Measuring,
        step_rel(pre, Event::TimedOk { nanos }, post),
    ensures
        post.latencies@ == pre.latencies@.push(nanos),
        post.latencies@.len() == pre.latencies@.len() + 1,
        post.latencies@[pre.timed_done as int] == nanos,
{
    assert(post.latencies@ == pre.latencies@.push(nanos));
}

} // verus!
