//! The frame engine for raw byte streams: a cycle of bounded-time read,
//! handler invocation, and conditional write-back. The runtime performs the
//! reads and writes; [`NativeEngine::on_read`] is the verified decision step
//! that turns what the runtime observed into the next action.

use vstd::prelude::*;
use crate::handler::{ConnectionHandler, SocketAddress};
use crate::message::{MessageBuffer, MessageType, MAX_BUFFER_SIZE};
use crate::outcome::CloseReason;
use crate::tally::{bump, saturating_inc};

verus! {

/// What the runtime observed while it waited on the stream.
#[derive(Debug, PartialEq, Eq)]
pub enum ReadEvent {
    /// A read completed and delivered these bytes (at most the buffer
    /// capacity for a well-behaved runtime).
    Data(Vec<u8>),
    /// The configured I/O timeout elapsed before any data arrived.
    TimedOut,
    /// The read failed; the payload is the runtime's error text.
    Failed(String),
    /// The write-back of the previous cycle failed; the payload is the
    /// runtime's error text.
    WriteFailed(String),
}

/// The action the runtime must perform after one decision step.
#[derive(Debug, PartialEq, Eq)]
pub enum NativeStep {
    /// Write exactly these bytes back to the peer, flush, then read again.
    Write(Vec<u8>),
    /// Nothing to write; read again.
    Continue,
    /// The loop is over; report this reason to the close callback.
    Close(CloseReason),
}

/// The per-connection state of the raw byte-stream engine.
pub struct NativeEngine {
    peer: SocketAddress,
    io_timeout_ms: u64,
    kind: MessageType,
    buf: MessageBuffer,
    messages: u64,
}

/// True when nothing observable about the engine changed and no message was
/// delivered to the handler.
pub open spec fn native_core_unchanged(pre: NativeEngine, post: NativeEngine) -> bool {
    &&& post.delivered() == pre.delivered()
    &&& post.kind_spec() == pre.kind_spec()
    &&& post.buffer_view() == pre.buffer_view()
    &&& post.out_size() == pre.out_size()
}

/// What concluding one exchange does for each handler verdict, stated over
/// the verdict as a plain value: a rejection closes with the handler's own
/// reason, verbatim; an accepting verdict writes back exactly the buffer
/// prefix the handler staged when it staged one, and otherwise just
/// continues.
pub open spec fn native_verdict_rel(e: NativeEngine, verdict: Result<(), String>, step: NativeStep) -> bool {
    match verdict {
        Err(m) => step == NativeStep::Close(CloseReason::CallbackRejected(m)),
        Ok(()) => {
            if e.out_size() > 0 {
                step matches NativeStep::Write(v) && v@ == e.buffer_view().subrange(
                    0,
                    e.out_size(),
                )
            } else {
                step == NativeStep::Continue
            }
        },
    }
}

/// The transition relation of the engine: everything one decision step may
/// do, for every possible handler.
///
/// A failed or timed-out read closes the connection with the matching
/// reason and without invoking the handler. A successful read delivers the
/// payload to the handler exactly once; afterwards the loop closes only if
/// the handler rejected the exchange, writes back exactly the buffer prefix
/// the handler staged when it staged one, and otherwise just continues. The
/// engine never ends the loop on its own after a successful exchange.
pub open spec fn native_step_rel(
    pre: NativeEngine,
    event: ReadEvent,
    post: NativeEngine,
    step: NativeStep,
) -> bool {
    &&& post.peer_spec() == pre.peer_spec()
    &&& post.io_timeout_spec() == pre.io_timeout_spec()
    &&& match event {
        ReadEvent::Failed(m) => {
            &&& step == NativeStep::Close(CloseReason::ReadError(m))
            &&& native_core_unchanged(pre, post)
        },
        ReadEvent::TimedOut => {
            &&& step == NativeStep::Close(CloseReason::ReadTimedOut)
            &&& native_core_unchanged(pre, post)
        },
        ReadEvent::WriteFailed(m) => {
            &&& step == NativeStep::Close(CloseReason::WriteError(m))
            &&& native_core_unchanged(pre, post)
        },
        ReadEvent::Data(bytes) => {
            if bytes@.len() > MAX_BUFFER_SIZE as int {
                &&& step == NativeStep::Close(CloseReason::Oversized(bytes@.len() as usize))
                &&& native_core_unchanged(pre, post)
            } else {
                &&& post.buffer_view().len() == MAX_BUFFER_SIZE as int
                &&& post.delivered() == saturating_inc(pre.delivered())
                &&& (step matches NativeStep::Close(r) ==> r is CallbackRejected)
                &&& (step matches NativeStep::Write(v) ==> {
                    &&& v@ == post.buffer_view().subrange(0, post.out_size())
                    &&& post.out_size() > 0
                })
                &&& (step is Continue ==> post.out_size() == 0)
            }
        },
    }
}

impl NativeEngine {
    /// The peer this connection talks to.
    pub closed spec fn peer_spec(self) -> SocketAddress {
        self.peer
    }

    /// The configured I/O timeout in milliseconds; zero disables it.
    pub closed spec fn io_timeout_spec(self) -> u64 {
        self.io_timeout_ms
    }

    /// The current message tag.
    pub closed spec fn kind_spec(self) -> MessageType {
        self.kind
    }

    /// The bytes currently held by the connection's buffer.
    pub closed spec fn buffer_view(self) -> Seq<u8> {
        self.buf@
    }

    /// The logical length the buffer currently has.
    pub closed spec fn out_size(self) -> int {
        self.buf.size_spec()
    }

    /// How many payloads were handed to the handler so far.
    pub closed spec fn delivered(self) -> u64 {
        self.messages
    }

    /// A fresh engine for one accepted connection.
    pub fn new(peer: SocketAddress, io_timeout_ms: u64) -> (e: NativeEngine)
        ensures
            e.peer_spec() == peer,
            e.io_timeout_spec() == io_timeout_ms,
            e.kind_spec() == MessageType::Binary,
            e.delivered() == 0,
            e.out_size() == 0,
            e.buffer_view().len() == MAX_BUFFER_SIZE as int,
    {
        NativeEngine {
            peer,
            io_timeout_ms,
            kind: MessageType::Binary,
            buf: MessageBuffer::new(),
            messages: 0,
        }
    }

    /// How many payloads were handed to the handler so far.
    pub fn delivered_count(&self) -> (n: u64)
        ensures
            n == self.delivered(),
    {
        self.messages
    }

    /// The configured I/O timeout in milliseconds; zero disables it.
    pub fn io_timeout_ms(&self) -> (t: u64)
        ensures
            t == self.io_timeout_spec(),
    {
        self.io_timeout_ms
    }

    /// Concludes one exchange from the handler's verdict, taken as a plain
    /// value: a rejection closes with the handler's own reason, verbatim;
    /// acceptance yields the staged buffer prefix to write, or nothing. The
    /// exact behaviour, for every verdict, is [`native_verdict_rel`].
    pub fn conclude_exchange(&self, verdict: Result<(), String>) -> (step: NativeStep)
        ensures
            native_verdict_rel(*self, verdict, step),
    {
        match verdict {
            Err(m) => NativeStep::Close(CloseReason::CallbackRejected(m)),
            Ok(()) => {
                if self.buf.size() > 0 {
                    NativeStep::Write(self.buf.prefix_vec())
                } else {
                    NativeStep::Continue
                }
            },
        }
    }

    /// One decision step of the read/process/write cycle.
    ///
    /// The runtime races each read against the configured timeout when one is
    /// set, renders a timeout or failure as the matching [`ReadEvent`], and
    /// hands the engine whatever it observed; the returned [`NativeStep`]
    /// says what to do next. The full behaviour is [`native_step_rel`].
    pub fn on_read<H: ConnectionHandler>(
        &mut self,
        handler: &mut H,
        elapsed_ms: u64,
        event: ReadEvent,
    ) -> (step: NativeStep)
        ensures
            native_step_rel(*old(self), event, *final(self), step),
    {
        match event {
            ReadEvent::Failed(m) => NativeStep::Close(CloseReason::ReadError(m)),
            ReadEvent::TimedOut => NativeStep::Close(CloseReason::ReadTimedOut),
            ReadEvent::WriteFailed(m) => NativeStep::Close(CloseReason::WriteError(m)),
            ReadEvent::Data(bytes) => {
                if bytes.len() > MAX_BUFFER_SIZE {
                    NativeStep::Close(CloseReason::Oversized(bytes.len()))
                } else {
                    let _loaded = self.buf.load(bytes.as_slice());
                    let mut kind = self.kind;
                    let verdict = handler.on_message(elapsed_ms, &self.peer, &mut kind, &mut self.buf);
                    self.kind = kind;
                    self.messages = bump(self.messages);
                    let _staged = self.buf.size();
                    self.conclude_exchange(verdict)
                }
            },
        }
    }
}

/// A successful read never lets the engine end the loop by itself: whenever a
/// step for delivered data closes the connection, the close reason is the
/// handler's own rejection, so a run in which every read, write and handler
/// call succeeds continues for ever.
pub proof fn law_native_liveness(
    pre: NativeEngine,
    bytes: Vec<u8>,
    post: NativeEngine,
    step: NativeStep,
)
    requires
        native_step_rel(pre, ReadEvent::Data(bytes), post, step),
        bytes@.len() <= MAX_BUFFER_SIZE as int,
        step is Close,
    ensures
        step->Close_0 is CallbackRejected,
{
}

/// Over any run of the engine — a chain of states linked step by step by
/// [`native_step_rel`] — in which every read delivers data within the buffer
/// capacity and the handler never rejects an exchange, no step closes the
/// connection: the cycle goes on unbounded, for as long as its reads, its
/// handler and its writes keep succeeding.
pub proof fn law_native_run_liveness(
    states: Seq<NativeEngine>,
    events: Seq<ReadEvent>,
    steps: Seq<NativeStep>,
)
    requires
        states.len() == events.len() + 1,
        steps.len() == events.len(),
        forall|i: int|
            0 <= i < events.len() ==> #[trigger] native_step_rel(
                states[i],
                events[i],
                states[i + 1],
                steps[i],
            ),
        forall|i: int|
            0 <= i < events.len() ==> ((#[trigger] events[i]) matches ReadEvent::Data(b) && b@.len()
                <= MAX_BUFFER_SIZE as int),
        forall|i: int|
            0 <= i < steps.len() ==> !((#[trigger] steps[i]) matches NativeStep::Close(r)
                && r is CallbackRejected),
    ensures
        forall|i: int| 0 <= i < steps.len() ==> !((#[trigger] steps[i]) is Close),
{
    assert forall|i: int| 0 <= i < steps.len() implies !((#[trigger] steps[i]) is Close) by {
        assert(native_step_rel(states[i], events[i], states[i + 1], steps[i]));
        assert((events[i] matches ReadEvent::Data(b) && b@.len() <= MAX_BUFFER_SIZE as int));
    }
}

/// A timed-out read closes the connection with the timeout-classified reason
/// and without handing anything to the handler.
pub proof fn law_native_timeout(pre: NativeEngine, post: NativeEngine, step: NativeStep)
    requires
        native_step_rel(pre, ReadEvent::TimedOut, post, step),
    ensures
        step == NativeStep::Close(CloseReason::ReadTimedOut),
        post.delivered() == pre.delivered(),
{
}

} // verus!
