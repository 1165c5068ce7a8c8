//! The outbound client's engine: the same fixed-buffer callback cycle as the
//! server's raw byte-stream engine, inverted to write before it reads, which
//! makes the client the initiator of each exchange. The runtime resolves and
//! connects the stream, performs the optional TLS client handshake, and
//! feeds this engine; the close callback always runs at the end, however the
//! loop terminated.

use vstd::prelude::*;
use crate::handler::{ConnectionHandler, SocketAddress};
use crate::message::{MessageBuffer, MessageType, MAX_BUFFER_SIZE};
use crate::native::ReadEvent;
use crate::outcome::CloseReason;
use crate::tally::{bump, saturating_inc};

verus! {

/// Which half of one exchange comes next.
#[derive(Clone, Copy, Debug, PartialEq, Eq, Structural)]
pub enum ClientPhase {
    /// Invoke the handler and write what it staged.
    Exchange,
    /// Wait for the peer's reply.
    AwaitRead,
}

/// The action the runtime must perform after the exchange half of a cycle.
#[derive(Debug, PartialEq, Eq)]
pub enum ClientStep {
    /// Write exactly these bytes, flush, then read the reply.
    Send(Vec<u8>),
    /// Nothing staged to write; read the reply directly.
    AwaitData,
    /// The loop is over; report this reason to the close callback.
    Close(CloseReason),
    /// The call was out of turn for the current phase; nothing happened.
    OutOfTurn,
}

/// The action the runtime must perform after the read half of a cycle.
#[derive(Debug, PartialEq, Eq)]
pub enum ClientProgress {
    /// The reply is in the buffer; run the next exchange.
    Proceed,
    /// The loop is over; report this reason to the close callback.
    Close(CloseReason),
    /// The call was out of turn for the current phase; nothing happened.
    OutOfTurn,
}

/// The per-connection state of the client engine.
pub struct ClientEngine {
    peer: SocketAddress,
    io_timeout_ms: u64,
    kind: MessageType,
    buf: MessageBuffer,
    messages: u64,
    phase: ClientPhase,
}

/// What concluding one exchange does for each handler verdict, stated over
/// the verdict as a plain value: a rejection closes with the handler's own
/// reason, verbatim, and changes nothing; an accepting verdict moves the
/// engine to the read half and hands the runtime the staged buffer prefix to
/// write when one was staged, or nothing.
pub open spec fn client_verdict_rel(
    pre: ClientEngine,
    verdict: Result<(), String>,
    post: ClientEngine,
    step: ClientStep,
) -> bool {
    match verdict {
        Err(m) => {
            &&& step == ClientStep::Close(CloseReason::CallbackRejected(m))
            &&& post == pre
        },
        Ok(()) => {
            &&& post.peer_spec() == pre.peer_spec()
            &&& post.io_timeout_spec() == pre.io_timeout_spec()
            &&& post.delivered() == pre.delivered()
            &&& post.kind_spec() == pre.kind_spec()
            &&& post.buffer_view() == pre.buffer_view()
            &&& post.out_size() == pre.out_size()
            &&& post.phase_spec() is AwaitRead
            &&& if pre.out_size() > 0 {
                step matches ClientStep::Send(v) && v@ == pre.buffer_view().subrange(
                    0,
                    pre.out_size(),
                )
            } else {
                step == ClientStep::AwaitData
            }
        },
    }
}

/// What the exchange half may do: in the exchange phase the handler runs
/// exactly once on the buffer as the last read left it, and the step then
/// concludes the exchange by the handler's verdict as [`client_verdict_rel`]
/// states. Out of phase, nothing happens.
pub open spec fn client_exchange_rel(pre: ClientEngine, post: ClientEngine, step: ClientStep) -> bool {
    &&& post.peer_spec() == pre.peer_spec()
    &&& post.io_timeout_spec() == pre.io_timeout_spec()
    &&& if pre.phase_spec() is Exchange {
        &&& post.delivered() == saturating_inc(pre.delivered())
        &&& post.buffer_view().len() == MAX_BUFFER_SIZE as int
        &&& !(step is OutOfTurn)
        &&& (step matches ClientStep::Close(r) ==> r is CallbackRejected && post.phase_spec()
            is Exchange)
        &&& (step matches ClientStep::Send(v) ==> {
            &&& v@ == post.buffer_view().subrange(0, post.out_size())
            &&& post.out_size() > 0
            &&& post.phase_spec() is AwaitRead
        })
        &&& (step is AwaitData ==> post.out_size() == 0 && post.phase_spec() is AwaitRead)
    } else {
        &&& step == ClientStep::OutOfTurn
        &&& post == pre
    }
}

/// What the read half may do: in the read phase a delivered payload lands in
/// the buffer and the engine returns to the exchange phase; a timeout, a
/// failed read or a failed write closes the loop with the matching reason
/// and without invoking the handler. Out of phase, nothing happens.
pub open spec fn client_read_rel(
    pre: ClientEngine,
    event: ReadEvent,
    post: ClientEngine,
    step: ClientProgress,
) -> bool {
    &&& post.peer_spec() == pre.peer_spec()
    &&& post.io_timeout_spec() == pre.io_timeout_spec()
    &&& post.delivered() == pre.delivered()
    &&& if pre.phase_spec() is AwaitRead {
        match event {
            ReadEvent::Data(bytes) => {
                if bytes@.len() > MAX_BUFFER_SIZE as int {
                    &&& step == ClientProgress::Close(
                        CloseReason::Oversized(bytes@.len() as usize),
                    )
                    &&& post.phase_spec() == pre.phase_spec()
                } else {
                    &&& step == ClientProgress::Proceed
                    &&& post.phase_spec() is Exchange
                    &&& post.buffer_view().len() == MAX_BUFFER_SIZE as int
                    &&& post.out_size() == bytes@.len()
                    &&& forall|j: int| 0 <= j < bytes@.len() ==> post.buffer_view()[j] == bytes@[j]
                }
            },
            ReadEvent::TimedOut => step == ClientProgress::Close(CloseReason::ReadTimedOut)
                && post.phase_spec() == pre.phase_spec(),
            ReadEvent::Failed(m) => step == ClientProgress::Close(CloseReason::ReadError(m))
                && post.phase_spec() == pre.phase_spec(),
            ReadEvent::WriteFailed(m) => step == ClientProgress::Close(CloseReason::WriteError(m))
                && post.phase_spec() == pre.phase_spec(),
        }
    } else {
        &&& step == ClientProgress::OutOfTurn
        &&& post == pre
    }
}

impl ClientEngine {
    /// The peer this connection talks to.
    pub closed spec fn peer_spec(self) -> SocketAddress {
        self.peer
    }

    /// The configured I/O timeout in milliseconds; zero disables it.
    pub closed spec fn io_timeout_spec(self) -> u64 {
        self.io_timeout_ms
    }

    /// The current message tag.
    pub closed spec fn kind_spec(self) -> MessageType {
        self.kind
    }

    /// The bytes currently held by the connection's buffer.
    pub closed spec fn buffer_view(self) -> Seq<u8> {
        self.buf@
    }

    /// The logical length the buffer currently has.
    pub closed spec fn out_size(self) -> int {
        self.buf.size_spec()
    }

    /// How many exchanges were handed to the handler so far.
    pub closed spec fn delivered(self) -> u64 {
        self.messages
    }

    /// Which half of the cycle comes next.
    pub closed spec fn phase_spec(self) -> ClientPhase {
        self.phase
    }

    /// A fresh engine for one established outbound connection. The first
    /// exchange runs on an empty buffer: the handler speaks first.
    pub fn new(peer: SocketAddress, io_timeout_ms: u64) -> (e: ClientEngine)
        ensures
            e.peer_spec() == peer,
            e.io_timeout_spec() == io_timeout_ms,
            e.kind_spec() == MessageType::Binary,
            e.delivered() == 0,
            e.out_size() == 0,
            e.phase_spec() is Exchange,
    {
        ClientEngine {
            peer,
            io_timeout_ms,
            kind: MessageType::Binary,
            buf: MessageBuffer::new(),
            messages: 0,
            phase: ClientPhase::Exchange,
        }
    }

    /// How many exchanges were handed to the handler so far.
    pub fn delivered_count(&self) -> (n: u64)
        ensures
            n == self.delivered(),
    {
        self.messages
    }

    /// Which half of the cycle comes next.
    pub fn phase(&self) -> (p: ClientPhase)
        ensures
            p == self.phase_spec(),
    {
        self.phase
    }

    /// The configured I/O timeout in milliseconds; zero disables it.
    pub fn io_timeout_ms(&self) -> (t: u64)
        ensures
            t == self.io_timeout_spec(),
    {
        self.io_timeout_ms
    }

    /// Concludes one exchange from the handler's verdict, taken as a plain
    /// value: a rejection closes with the handler's own reason, verbatim;
    /// acceptance moves the engine to the read half, with the staged buffer
    /// prefix to write when one was staged. The exact behaviour, for every
    /// verdict, is [`client_verdict_rel`].
    pub fn conclude_exchange(&mut self, verdict: Result<(), String>) -> (step: ClientStep)
        ensures
            client_verdict_rel(*old(self), verdict, *final(self), step),
            final(self).buffer_view().len() == MAX_BUFFER_SIZE as int,
            0 <= final(self).out_size() <= MAX_BUFFER_SIZE as int,
    {
        let staged = self.buf.size();
        match verdict {
            Err(m) => ClientStep::Close(CloseReason::CallbackRejected(m)),
            Ok(()) => {
                self.phase = ClientPhase::AwaitRead;
                if staged > 0 {
                    ClientStep::Send(self.buf.prefix_vec())
                } else {
                    ClientStep::AwaitData
                }
            },
        }
    }

    /// The exchange half of one cycle: run the handler on the buffer as the
    /// last read left it, then conclude by the handler's verdict. The full
    /// behaviour is [`client_exchange_rel`].
    pub fn next_exchange<H: ConnectionHandler>(
        &mut self,
        handler: &mut H,
        elapsed_ms: u64,
    ) -> (step: ClientStep)
        ensures
            client_exchange_rel(*old(self), *final(self), step),
    {
        match self.phase {
            ClientPhase::Exchange => {
                let mut kind = self.kind;
                let verdict = handler.on_message(elapsed_ms, &self.peer, &mut kind, &mut self.buf);
                self.kind = kind;
                self.messages = bump(self.messages);
                self.conclude_exchange(verdict)
            },
            ClientPhase::AwaitRead => ClientStep::OutOfTurn,
        }
    }

    /// The read half of one cycle: take what the runtime observed while it
    /// raced the read against the configured timeout. The full behaviour is
    /// [`client_read_rel`].
    pub fn on_read(&mut self, event: ReadEvent) -> (step: ClientProgress)
        ensures
            client_read_rel(*old(self), event, *final(self), step),
    {
        match self.phase {
            ClientPhase::AwaitRead => match event {
                ReadEvent::Data(bytes) => {
                    if bytes.len() > MAX_BUFFER_SIZE {
                        ClientProgress::Close(CloseReason::Oversized(bytes.len()))
                    } else {
                        let _loaded = self.buf.load(bytes.as_slice());
                        self.phase = ClientPhase::Exchange;
                        ClientProgress::Proceed
                    }
                },
                ReadEvent::TimedOut => ClientProgress::Close(CloseReason::ReadTimedOut),
                ReadEvent::Failed(m) => ClientProgress::Close(CloseReason::ReadError(m)),
                ReadEvent::WriteFailed(m) => ClientProgress::Close(CloseReason::WriteError(m)),
            },
            ClientPhase::Exchange => ClientProgress::OutOfTurn,
        }
    }
}

} // verus!
