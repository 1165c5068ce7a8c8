//! The per-connection dispatcher: it runs the accept callback before any
//! engine, selects the engine by protocol, and reports the engine's close
//! reason to the close callback afterwards. A rejected connection runs no
//! engine and never sees the close callback; an approved connection sees it
//! exactly once, however the engine ends.

use vstd::prelude::*;
use crate::handler::{ConnectionHandler, SocketAddress};
use crate::outcome::CloseReason;
use crate::tally::{bump, saturating_inc};
use crate::tcp_protocol::TcpProtocol;

verus! {

/// Where one accepted connection stands in its lifecycle.
#[derive(Clone, Copy, Debug, PartialEq, Eq, Structural)]
pub enum ConnectionPhase {
    /// Accepted by the listener; the accept callback has not run yet.
    Ready,
    /// The accept callback rejected the connection: no engine runs and the
    /// close callback is never invoked.
    Rejected,
    /// The accept callback approved the connection; an engine runs.
    Engaged,
    /// The engine ended and the close callback has run, exactly once.
    Closed,
}

/// The decision after the accept callback ran.
#[derive(Debug, PartialEq, Eq)]
pub enum AcceptDecision {
    /// Run the engine this protocol selects.
    Proceed(TcpProtocol),
    /// The accept callback rejected the connection with this reason: run no
    /// engine and do not invoke the close callback.
    Refuse(String),
    /// The call was out of turn for the current phase; nothing happened.
    OutOfTurn,
}

/// The outcome after the engine ended and the close callback ran.
#[derive(Debug, PartialEq, Eq)]
pub enum FinishOutcome {
    /// The close callback accepted the report.
    Reported,
    /// The close callback itself failed with this reason; the caller of the
    /// surrounding loop sees that failure.
    ReportFailed(String),
    /// The call was out of turn for the current phase; nothing happened and
    /// the close callback did not run.
    OutOfTurn,
}

/// The decision an accept verdict maps to: approval proceeds with the given
/// protocol's engine; rejection refuses with the callback's own reason,
/// verbatim.
pub open spec fn spec_accept_decision(
    protocol: TcpProtocol,
    verdict: Result<(), String>,
) -> AcceptDecision {
    match verdict {
        Ok(()) => AcceptDecision::Proceed(protocol),
        Err(m) => AcceptDecision::Refuse(m),
    }
}

/// The outcome a close-callback verdict maps to: the callback's own failure,
/// reason and all, is what the caller of the surrounding loop sees.
pub open spec fn spec_close_report(verdict: Result<(), String>) -> FinishOutcome {
    match verdict {
        Ok(()) => FinishOutcome::Reported,
        Err(m) => FinishOutcome::ReportFailed(m),
    }
}

/// Maps the accept callback's verdict, taken as a plain value, to the
/// dispatcher's decision.
pub fn decide_accept(protocol: TcpProtocol, verdict: Result<(), String>) -> (d: AcceptDecision)
    ensures
        d == spec_accept_decision(protocol, verdict),
{
    match verdict {
        Ok(()) => AcceptDecision::Proceed(protocol),
        Err(m) => AcceptDecision::Refuse(m),
    }
}

/// Maps the close callback's verdict, taken as a plain value, to the
/// outcome the caller of the surrounding loop sees: the callback's own
/// failure is propagated, reason and all.
pub fn report_close(verdict: Result<(), String>) -> (r: FinishOutcome)
    ensures
        r == spec_close_report(verdict),
{
    match verdict {
        Ok(()) => FinishOutcome::Reported,
        Err(m) => FinishOutcome::ReportFailed(m),
    }
}

/// The lifecycle state of one accepted connection.
pub struct ConnectionLifecycle {
    peer: SocketAddress,
    protocol: TcpProtocol,
    phase: ConnectionPhase,
    close_calls: u64,
}

impl ConnectionLifecycle {
    /// The peer this connection talks to.
    pub closed spec fn peer_spec(self) -> SocketAddress {
        self.peer
    }

    /// The protocol the engine for this connection speaks.
    pub closed spec fn protocol_spec(self) -> TcpProtocol {
        self.protocol
    }

    /// The current lifecycle phase.
    pub closed spec fn phase_spec(self) -> ConnectionPhase {
        self.phase
    }

    /// How often the close callback has run for this connection.
    pub closed spec fn close_calls_spec(self) -> u64 {
        self.close_calls
    }

    /// Validity: the close callback has run exactly once in the closed phase
    /// and never in any other phase.
    pub open spec fn wf(self) -> bool {
        match self.phase_spec() {
            ConnectionPhase::Closed => self.close_calls_spec() == 1,
            _ => self.close_calls_spec() == 0,
        }
    }

    /// A fresh lifecycle for a connection the listener just accepted.
    pub fn new(peer: SocketAddress, protocol: TcpProtocol) -> (lc: ConnectionLifecycle)
        ensures
            lc.peer_spec() == peer,
            lc.protocol_spec() == protocol,
            lc.phase_spec() is Ready,
            lc.close_calls_spec() == 0,
            lc.wf(),
    {
        ConnectionLifecycle { peer, protocol, phase: ConnectionPhase::Ready, close_calls: 0 }
    }

    /// The current lifecycle phase.
    pub fn phase(&self) -> (p: ConnectionPhase)
        ensures
            p == self.phase_spec(),
    {
        self.phase
    }

    /// How often the close callback has run for this connection.
    pub fn close_count(&self) -> (n: u64)
        ensures
            n == self.close_calls_spec(),
    {
        self.close_calls
    }

    /// Runs the accept callback once. Approval engages the connection and
    /// names the protocol whose engine the runtime must run; rejection is
    /// final: the connection counts as never handled, so no engine runs and
    /// the close callback is never invoked for it.
    pub fn start<H: ConnectionHandler>(&mut self, handler: &mut H) -> (d: AcceptDecision)
        ensures
            final(self).peer_spec() == old(self).peer_spec(),
            final(self).protocol_spec() == old(self).protocol_spec(),
            final(self).close_calls_spec() == old(self).close_calls_spec(),
            old(self).phase_spec() is Ready ==> {
                &&& (exists|verdict: Result<(), String>| d == #[trigger] spec_accept_decision(
                    old(self).protocol_spec(),
                    verdict,
                ))
                &&& (d is Proceed <==> final(self).phase_spec() is Engaged)
                &&& (d is Refuse <==> final(self).phase_spec() is Rejected)
                &&& (d matches AcceptDecision::Proceed(p) ==> p == old(self).protocol_spec())
                &&& !(d is OutOfTurn)
            },
            !(old(self).phase_spec() is Ready) ==> {
                &&& d == AcceptDecision::OutOfTurn
                &&& final(self).phase_spec() == old(self).phase_spec()
            },
            old(self).wf() ==> final(self).wf(),
    {
        match self.phase {
            ConnectionPhase::Ready => {
                let verdict = handler.on_accept(&self.peer);
                if verdict.is_ok() {
                    self.phase = ConnectionPhase::Engaged;
                } else {
                    self.phase = ConnectionPhase::Rejected;
                }
                decide_accept(self.protocol, verdict)
            },
            _ => AcceptDecision::OutOfTurn,
        }
    }

    /// Reports the engine's close reason to the close callback, exactly once
    /// and only for an engaged connection; the callback's own failure is
    /// handed back to the caller.
    pub fn finish<H: ConnectionHandler>(
        &mut self,
        handler: &mut H,
        reason: &CloseReason,
    ) -> (r: FinishOutcome)
        ensures
            final(self).peer_spec() == old(self).peer_spec(),
            final(self).protocol_spec() == old(self).protocol_spec(),
            old(self).phase_spec() is Engaged ==> {
                &&& final(self).phase_spec() is Closed
                &&& final(self).close_calls_spec() == saturating_inc(old(self).close_calls_spec())
                &&& (exists|verdict: Result<(), String>| r == #[trigger] spec_close_report(verdict))
                &&& !(r is OutOfTurn)
            },
            !(old(self).phase_spec() is Engaged) ==> {
                &&& r == FinishOutcome::OutOfTurn
                &&& final(self).phase_spec() == old(self).phase_spec()
                &&& final(self).close_calls_spec() == old(self).close_calls_spec()
            },
            old(self).wf() ==> final(self).wf(),
    {
        match self.phase {
            ConnectionPhase::Engaged => {
                self.phase = ConnectionPhase::Closed;
                self.close_calls = bump(self.close_calls);
                let verdict = handler.on_close(&self.peer, reason);
                report_close(verdict)
            },
            _ => FinishOutcome::OutOfTurn,
        }
    }
}

/// A connection the accept callback rejected never sees its close callback:
/// in the rejected phase the close count is zero, and no step leads out of
/// that phase.
pub proof fn law_rejected_never_closed(lc: ConnectionLifecycle)
    requires
        lc.wf(),
        lc.phase_spec() is Rejected,
    ensures
        lc.close_calls_spec() == 0,
{
}

/// Once the accept callback approved a connection and its engine ended, the
/// close callback has run exactly once, however the engine terminated.
pub proof fn law_closed_exactly_once(lc: ConnectionLifecycle)
    requires
        lc.wf(),
        lc.phase_spec() is Closed,
    ensures
        lc.close_calls_spec() == 1,
{
}

} // verus!
