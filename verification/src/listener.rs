//! The accept loop's decision core. Each iteration first checks the shared
//! shutdown signal, then races one accept attempt against the configured
//! accept timeout, and finally dispatches an accepted connection to its own
//! concurrently running task. A timed-out or failed accept is swallowed: the
//! loop simply re-enters the shutdown check, so a pending shutdown is seen
//! within one accept-timeout period.

use vstd::prelude::*;
use crate::config::TcpServerConfig;
use crate::handler::SocketAddress;
use crate::tally::{bump, saturating_inc};
use crate::tcp_protocol::TcpProtocol;

verus! {

/// Whether the listener still accepts connections.
#[derive(Clone, Copy, Debug, PartialEq, Eq, Structural)]
pub enum ListenerPhase {
    Accepting,
    Stopped,
}

/// The decision after the shutdown signal was polled.
#[derive(Debug, PartialEq, Eq)]
pub enum ShutdownDecision {
    /// Stop accepting, then invoke the close-socket callback.
    Stop,
    /// Race one accept attempt against this many milliseconds; zero means
    /// block until a connection arrives.
    AwaitAccept(u64),
}

/// What the runtime observed while it waited on the accept race.
#[derive(Debug, PartialEq, Eq)]
pub enum AcceptOutcome {
    /// A connection arrived from this peer.
    Connection(SocketAddress),
    /// The accept timeout elapsed with no pending connection.
    TimedOut,
    /// The accept call failed; the payload is the error text.
    Failed(String),
}

/// Everything the runtime needs to run one accepted connection: wrap the
/// stream in TLS when `use_tls` is set, then drive the engine `protocol`
/// selects with this I/O timeout, as a task of its own.
#[derive(Debug, PartialEq, Eq)]
pub struct DispatchPlan {
    pub peer: SocketAddress,
    pub use_tls: bool,
    pub protocol: TcpProtocol,
    pub io_timeout_ms: u64,
}

/// The decision after one accept race ended.
#[derive(Debug, PartialEq, Eq)]
pub enum DispatchDecision {
    /// Spawn a task for this connection.
    Dispatch(DispatchPlan),
    /// Nothing to dispatch; re-enter the shutdown check and accept again.
    Retry,
}

/// The accept loop's state: the configuration it was started with, whether
/// it still accepts, and how many connections it has dispatched.
pub struct AcceptLoop {
    protocol: TcpProtocol,
    tls: bool,
    accept_timeout_ms: u64,
    io_timeout_ms: u64,
    phase: ListenerPhase,
    dispatched: u64,
}

impl AcceptLoop {
    /// The protocol every accepted connection speaks.
    pub closed spec fn protocol_spec(self) -> TcpProtocol {
        self.protocol
    }

    /// Whether accepted streams are wrapped in TLS.
    pub closed spec fn tls_spec(self) -> bool {
        self.tls
    }

    /// The accept timeout in milliseconds; zero disables it.
    pub closed spec fn accept_timeout_spec(self) -> u64 {
        self.accept_timeout_ms
    }

    /// The per-connection I/O timeout in milliseconds; zero disables it.
    pub closed spec fn io_timeout_spec(self) -> u64 {
        self.io_timeout_ms
    }

    /// Whether the listener still accepts connections.
    pub closed spec fn phase_spec(self) -> ListenerPhase {
        self.phase
    }

    /// How many connections were dispatched so far.
    pub closed spec fn dispatched_spec(self) -> u64 {
        self.dispatched
    }

    /// True when the configuration carried over from `config` unchanged.
    pub open spec fn configured_from(self, config: TcpServerConfig) -> bool {
        &&& self.protocol_spec() == config.protocol
        &&& self.tls_spec() == config.tls
        &&& self.accept_timeout_spec() == config.accept_timeout_ms
        &&& self.io_timeout_spec() == config.io_timeout_ms
    }

    /// True when nothing about the loop changed between two states.
    pub open spec fn config_stable(pre: AcceptLoop, post: AcceptLoop) -> bool {
        &&& post.protocol_spec() == pre.protocol_spec()
        &&& post.tls_spec() == pre.tls_spec()
        &&& post.accept_timeout_spec() == pre.accept_timeout_spec()
        &&& post.io_timeout_spec() == pre.io_timeout_spec()
    }

    /// A fresh accept loop for a listener that was just bound.
    pub fn new(config: &TcpServerConfig) -> (lp: AcceptLoop)
        ensures
            lp.configured_from(*config),
            lp.phase_spec() is Accepting,
            lp.dispatched_spec() == 0,
    {
        AcceptLoop {
            protocol: config.protocol,
            tls: config.tls,
            accept_timeout_ms: config.accept_timeout_ms,
            io_timeout_ms: config.io_timeout_ms,
            phase: ListenerPhase::Accepting,
            dispatched: 0,
        }
    }

    /// Whether the listener still accepts connections.
    pub fn phase(&self) -> (p: ListenerPhase)
        ensures
            p == self.phase_spec(),
    {
        self.phase
    }

    /// How many connections were dispatched so far.
    pub fn dispatched_count(&self) -> (n: u64)
        ensures
            n == self.dispatched_spec(),
    {
        self.dispatched
    }

    /// The decision at the top of each iteration, after the runtime polled
    /// the shared shutdown signal without blocking. A signalled shutdown
    /// stops the loop for good; otherwise the runtime must race one accept
    /// attempt against the configured accept timeout.
    pub fn poll_shutdown(&mut self, shutdown_requested: bool) -> (d: ShutdownDecision)
        ensures
            AcceptLoop::config_stable(*old(self), *final(self)),
            final(self).dispatched_spec() == old(self).dispatched_spec(),
            old(self).phase_spec() is Accepting && shutdown_requested ==> {
                &&& d == ShutdownDecision::Stop
                &&& final(self).phase_spec() is Stopped
            },
            old(self).phase_spec() is Accepting && !shutdown_requested ==> {
                &&& d == ShutdownDecision::AwaitAccept(old(self).accept_timeout_spec())
                &&& final(self).phase_spec() is Accepting
            },
            old(self).phase_spec() is Stopped ==> {
                &&& d == ShutdownDecision::Stop
                &&& final(self).phase_spec() is Stopped
            },
    {
        match self.phase {
            ListenerPhase::Accepting => {
                if shutdown_requested {
                    self.phase = ListenerPhase::Stopped;
                    ShutdownDecision::Stop
                } else {
                    ShutdownDecision::AwaitAccept(self.accept_timeout_ms)
                }
            },
            ListenerPhase::Stopped => ShutdownDecision::Stop,
        }
    }

    /// The decision after one accept race ended. A timed-out or failed
    /// accept dispatches nothing, invokes no connection callback, and sends
    /// the loop back to the shutdown check; an accepted connection yields
    /// the plan for its own task, with the configuration carried over
    /// verbatim.
    pub fn on_accept_outcome(&mut self, outcome: AcceptOutcome) -> (d: DispatchDecision)
        ensures
            AcceptLoop::config_stable(*old(self), *final(self)),
            final(self).phase_spec() == old(self).phase_spec(),
            old(self).phase_spec() is Accepting ==> match outcome {
                AcceptOutcome::Connection(peer) => {
                    &&& (d matches DispatchDecision::Dispatch(plan) ==> {
                        &&& plan.peer == peer
                        &&& plan.use_tls == old(self).tls_spec()
                        &&& plan.protocol == old(self).protocol_spec()
                        &&& plan.io_timeout_ms == old(self).io_timeout_spec()
                    })
                    &&& d is Dispatch
                    &&& final(self).dispatched_spec() == saturating_inc(old(self).dispatched_spec())
                },
                AcceptOutcome::TimedOut => {
                    &&& d == DispatchDecision::Retry
                    &&& final(self).dispatched_spec() == old(self).dispatched_spec()
                },
                AcceptOutcome::Failed(_) => {
                    &&& d == DispatchDecision::Retry
                    &&& final(self).dispatched_spec() == old(self).dispatched_spec()
                },
            },
            old(self).phase_spec() is Stopped ==> {
                &&& d == DispatchDecision::Retry
                &&& final(self).dispatched_spec() == old(self).dispatched_spec()
            },
    {
        match self.phase {
            ListenerPhase::Accepting => match outcome {
                AcceptOutcome::Connection(peer) => {
                    self.dispatched = bump(self.dispatched);
                    DispatchDecision::Dispatch(
                        DispatchPlan {
                            peer,
                            use_tls: self.tls,
                            protocol: self.protocol,
                            io_timeout_ms: self.io_timeout_ms,
                        },
                    )
                },
                AcceptOutcome::TimedOut => DispatchDecision::Retry,
                AcceptOutcome::Failed(_) => DispatchDecision::Retry,
            },
            ListenerPhase::Stopped => DispatchDecision::Retry,
        }
    }
}

} // verus!
