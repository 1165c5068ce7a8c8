//! The frame engine for WebSocket connections: the same read/process/write
//! cycle as the raw byte-stream engine, adapted to framed messages. Text and
//! binary frames are normalized onto the fixed-size buffer contract; a text
//! exchange is revalidated as UTF-8 after the handler ran; every terminal
//! path yields a close reason whose close code goes out in the closing frame.

use vstd::prelude::*;
use vstd::utf8::valid_utf8;
use crate::encoding::validate_utf8;
use crate::handler::{ConnectionHandler, SocketAddress};
use crate::message::{MessageBuffer, MessageType, MAX_BUFFER_SIZE};
use crate::outcome::{spec_close_code, CloseReason, WsCloseCode};
use crate::tally::{bump, saturating_inc};

verus! {

/// One inbound frame, as the runtime's framing layer delivers it.
#[derive(Debug, PartialEq, Eq)]
pub enum Frame {
    /// A text frame's payload bytes.
    Text(Vec<u8>),
    /// A binary frame's payload bytes.
    Binary(Vec<u8>),
    /// A close frame: the peer asks for a clean shutdown.
    Close,
    /// A ping or pong frame; the framing layer answers these itself and the
    /// engine ignores them.
    Control,
}

/// What the runtime observed while it waited on the framed stream.
#[derive(Debug, PartialEq, Eq)]
pub enum WsEvent {
    /// A frame arrived.
    Frame(Frame),
    /// The configured I/O timeout elapsed before any frame arrived.
    TimedOut,
    /// Reading from the stream failed; the payload is the error text.
    ReadFailed(String),
    /// Sending the previous outbound frame failed; the payload is the error
    /// text.
    WriteFailed(String),
    /// A text frame could not be read as text; the payload is the error text.
    MalformedText(String),
}

/// The action the runtime must perform after one decision step.
#[derive(Debug, PartialEq, Eq)]
pub enum WsStep {
    /// Send these bytes as one text frame, then read again.
    SendText(Vec<u8>),
    /// Send these bytes as one binary frame, then read again.
    SendBinary(Vec<u8>),
    /// Nothing to send; read again.
    Continue,
    /// The loop is over; send a close frame carrying this reason's close
    /// code, then report the reason to the close callback.
    Close(CloseReason),
}

/// The per-connection state of the WebSocket engine.
pub struct WsEngine {
    peer: SocketAddress,
    io_timeout_ms: u64,
    kind: MessageType,
    buf: MessageBuffer,
    messages: u64,
}

/// True when nothing observable about the engine changed and no message was
/// delivered to the handler.
pub open spec fn ws_core_unchanged(pre: WsEngine, post: WsEngine) -> bool {
    &&& post.delivered() == pre.delivered()
    &&& post.kind_spec() == pre.kind_spec()
    &&& post.buffer_view() == pre.buffer_view()
    &&& post.out_size() == pre.out_size()
}

/// True when every buffer byte past the logical length is zero, so that the
/// whole capacity reads as one value.
pub open spec fn tail_zeroed(e: WsEngine) -> bool {
    forall|j: int| e.out_size() <= j < MAX_BUFFER_SIZE as int ==> e.buffer_view()[j] == 0u8
}

/// What concluding a text exchange does for each handler verdict, stated
/// over the verdict as a plain value. A rejection closes with the handler's
/// own reason, verbatim, and touches nothing; an accepting verdict zero-fills
/// the buffer tail and either sends the whole capacity back as text — exactly
/// when it is valid UTF-8 — or closes with the UTF-8 failure.
pub open spec fn ws_text_verdict_rel(
    pre: WsEngine,
    verdict: Result<(), String>,
    post: WsEngine,
    step: WsStep,
) -> bool {
    &&& post.peer_spec() == pre.peer_spec()
    &&& post.io_timeout_spec() == pre.io_timeout_spec()
    &&& post.delivered() == pre.delivered()
    &&& post.kind_spec() == pre.kind_spec()
    &&& match verdict {
        Err(m) => {
            &&& step == WsStep::Close(CloseReason::CallbackRejected(m))
            &&& post.buffer_view() == pre.buffer_view()
            &&& post.out_size() == pre.out_size()
        },
        Ok(()) => {
            &&& post.out_size() == pre.out_size()
            &&& post.buffer_view().len() == MAX_BUFFER_SIZE as int
            &&& (forall|j: int|
                0 <= j < pre.out_size() ==> post.buffer_view()[j] == pre.buffer_view()[j])
            &&& tail_zeroed(post)
            &&& if valid_utf8(post.buffer_view()) {
                step matches WsStep::SendText(v) && v@ == post.buffer_view()
            } else {
                step == WsStep::Close(CloseReason::NotUtf8)
            }
        },
    }
}

/// How a binary exchange ends for each handler verdict, stated over the
/// verdict as a plain value: a rejection closes with the handler's own
/// reason; an accepting verdict sends the whole buffer capacity back as one
/// binary frame, with nothing rechecked.
pub open spec fn ws_binary_verdict_rel(e: WsEngine, verdict: Result<(), String>, step: WsStep) -> bool {
    match verdict {
        Err(m) => step == WsStep::Close(CloseReason::CallbackRejected(m)),
        Ok(()) => step matches WsStep::SendBinary(v) && v@ == e.buffer_view(),
    }
}

/// What one text exchange may do. An empty payload and a payload beyond the
/// buffer capacity close the connection without reaching the handler; any
/// other payload is delivered exactly once, and the step then concludes the
/// exchange by the handler's verdict as [`ws_text_verdict_rel`] states — so
/// a close after delivery is the handler's own rejection or the UTF-8
/// failure, and whatever goes back out as text is the whole zero-filled
/// buffer, valid UTF-8.
pub open spec fn ws_text_rel(pre: WsEngine, payload: Seq<u8>, post: WsEngine, step: WsStep) -> bool {
    if payload.len() == 0 {
        &&& step == WsStep::Close(CloseReason::EmptyMessage)
        &&& ws_core_unchanged(pre, post)
    } else if payload.len() > MAX_BUFFER_SIZE as int {
        &&& step == WsStep::Close(CloseReason::Oversized(payload.len() as usize))
        &&& ws_core_unchanged(pre, post)
    } else {
        &&& post.delivered() == saturating_inc(pre.delivered())
        &&& post.buffer_view().len() == MAX_BUFFER_SIZE as int
        &&& 0 <= post.out_size() <= MAX_BUFFER_SIZE as int
        &&& (step is SendText || step is Close)
        &&& (step matches WsStep::Close(r) ==> {
            ||| r is CallbackRejected
            ||| (r is NotUtf8 && !valid_utf8(post.buffer_view()) && tail_zeroed(post))
        })
        &&& (step matches WsStep::SendText(v) ==> {
            &&& v@ == post.buffer_view()
            &&& valid_utf8(v@)
            &&& tail_zeroed(post)
        })
    }
}

/// What one binary exchange may do. An empty payload and a payload beyond
/// the capacity close the connection without reaching the handler; any other
/// payload — the full capacity or shorter — is copied over the front of the
/// buffer and delivered once, like a text frame, and the step then concludes
/// the exchange by the handler's verdict as [`ws_binary_verdict_rel`]
/// states: the handler's own rejection, or the whole buffer echoed back as
/// one binary frame.
pub open spec fn ws_binary_rel(
    pre: WsEngine,
    payload: Seq<u8>,
    post: WsEngine,
    step: WsStep,
) -> bool {
    if payload.len() == 0 {
        &&& step == WsStep::Close(CloseReason::EmptyMessage)
        &&& ws_core_unchanged(pre, post)
    } else if payload.len() > MAX_BUFFER_SIZE as int {
        &&& step == WsStep::Close(CloseReason::Oversized(payload.len() as usize))
        &&& ws_core_unchanged(pre, post)
    } else {
        &&& post.delivered() == saturating_inc(pre.delivered())
        &&& post.buffer_view().len() == MAX_BUFFER_SIZE as int
        &&& (step is SendBinary || step is Close)
        &&& (step matches WsStep::Close(r) ==> r is CallbackRejected)
        &&& (step matches WsStep::SendBinary(v) ==> v@ == post.buffer_view())
    }
}

/// The transition relation of the WebSocket engine: everything one decision
/// step may do, for every possible handler.
pub open spec fn ws_step_rel(pre: WsEngine, event: WsEvent, post: WsEngine, step: WsStep) -> bool {
    &&& post.peer_spec() == pre.peer_spec()
    &&& post.io_timeout_spec() == pre.io_timeout_spec()
    &&& match event {
        WsEvent::TimedOut => {
            &&& step == WsStep::Close(CloseReason::ReadTimedOut)
            &&& ws_core_unchanged(pre, post)
        },
        WsEvent::ReadFailed(m) => {
            &&& step == WsStep::Close(CloseReason::ReadError(m))
            &&& ws_core_unchanged(pre, post)
        },
        WsEvent::WriteFailed(m) => {
            &&& step == WsStep::Close(CloseReason::SendError(m))
            &&& ws_core_unchanged(pre, post)
        },
        WsEvent::MalformedText(m) => {
            &&& step == WsStep::Close(CloseReason::MalformedText(m))
            &&& ws_core_unchanged(pre, post)
        },
        WsEvent::Frame(frame) => match frame {
            Frame::Close => step == WsStep::Close(CloseReason::CleanClose) && ws_core_unchanged(
                pre,
                post,
            ),
            Frame::Control => step == WsStep::Continue && ws_core_unchanged(pre, post),
            Frame::Text(payload) => ws_text_rel(pre, payload@, post, step),
            Frame::Binary(payload) => ws_binary_rel(pre, payload@, post, step),
        },
    }
}

impl WsEngine {
    /// The peer this connection talks to.
    pub closed spec fn peer_spec(self) -> SocketAddress {
        self.peer
    }

    /// The configured I/O timeout in milliseconds; zero disables it.
    pub closed spec fn io_timeout_spec(self) -> u64 {
        self.io_timeout_ms
    }

    /// The current message tag.
    pub closed spec fn kind_spec(self) -> MessageType {
        self.kind
    }

    /// The bytes currently held by the connection's buffer.
    pub closed spec fn buffer_view(self) -> Seq<u8> {
        self.buf@
    }

    /// The logical length the buffer currently has.
    pub closed spec fn out_size(self) -> int {
        self.buf.size_spec()
    }

    /// How many payloads were handed to the handler so far.
    pub closed spec fn delivered(self) -> u64 {
        self.messages
    }

    /// A fresh engine for one connection whose opening handshake succeeded.
    pub fn new(peer: SocketAddress, io_timeout_ms: u64) -> (e: WsEngine)
        ensures
            e.peer_spec() == peer,
            e.io_timeout_spec() == io_timeout_ms,
            e.kind_spec() == MessageType::Text,
            e.delivered() == 0,
            e.out_size() == 0,
            e.buffer_view().len() == MAX_BUFFER_SIZE as int,
    {
        WsEngine {
            peer,
            io_timeout_ms,
            kind: MessageType::Text,
            buf: MessageBuffer::new(),
            messages: 0,
        }
    }

    /// How many payloads were handed to the handler so far.
    pub fn delivered_count(&self) -> (n: u64)
        ensures
            n == self.delivered(),
    {
        self.messages
    }

    /// The configured I/O timeout in milliseconds; zero disables it.
    pub fn io_timeout_ms(&self) -> (t: u64)
        ensures
            t == self.io_timeout_spec(),
    {
        self.io_timeout_ms
    }

    /// One decision step of the framed read/process/write cycle.
    ///
    /// The runtime performs the opening handshake, reads frames (racing the
    /// configured timeout when one is set), renders what it observed as a
    /// [`WsEvent`], and performs the returned [`WsStep`]; on `Close` it sends
    /// a closing frame with the reason's close code before reporting the
    /// reason. The full behaviour is [`ws_step_rel`].
    pub fn on_event<H: ConnectionHandler>(
        &mut self,
        handler: &mut H,
        elapsed_ms: u64,
        event: WsEvent,
    ) -> (step: WsStep)
        ensures
            ws_step_rel(*old(self), event, *final(self), step),
    {
        match event {
            WsEvent::TimedOut => WsStep::Close(CloseReason::ReadTimedOut),
            WsEvent::ReadFailed(m) => WsStep::Close(CloseReason::ReadError(m)),
            WsEvent::WriteFailed(m) => WsStep::Close(CloseReason::SendError(m)),
            WsEvent::MalformedText(m) => WsStep::Close(CloseReason::MalformedText(m)),
            WsEvent::Frame(frame) => match frame {
                Frame::Close => WsStep::Close(CloseReason::CleanClose),
                Frame::Control => WsStep::Continue,
                Frame::Text(payload) => self.text_exchange(handler, elapsed_ms, payload),
                Frame::Binary(payload) => self.binary_exchange(handler, elapsed_ms, payload),
            },
        }
    }

    /// Concludes a text exchange from the handler's verdict, taken as a
    /// plain value: a rejection closes with the handler's own reason,
    /// verbatim; acceptance zero-fills the buffer tail and sends the whole
    /// capacity back as text exactly when it is valid UTF-8, closing with
    /// the UTF-8 failure otherwise. The exact behaviour, for every verdict,
    /// is [`ws_text_verdict_rel`].
    pub fn conclude_text_exchange(&mut self, verdict: Result<(), String>) -> (step: WsStep)
        ensures
            ws_text_verdict_rel(*old(self), verdict, *final(self), step),
    {
        match verdict {
            Err(m) => WsStep::Close(CloseReason::CallbackRejected(m)),
            Ok(()) => {
                self.buf.zero_fill_tail();
                let full = self.buf.full_vec();
                if validate_utf8(full.as_slice()) {
                    WsStep::SendText(full)
                } else {
                    WsStep::Close(CloseReason::NotUtf8)
                }
            },
        }
    }

    /// Concludes a binary exchange from the handler's verdict, taken as a
    /// plain value: a rejection closes with the handler's own reason,
    /// verbatim; acceptance sends the whole buffer capacity back as one
    /// binary frame, with no revalidation. The exact behaviour, for every
    /// verdict, is [`ws_binary_verdict_rel`].
    pub fn conclude_binary_exchange(&self, verdict: Result<(), String>) -> (step: WsStep)
        ensures
            ws_binary_verdict_rel(*self, verdict, step),
    {
        match verdict {
            Err(m) => WsStep::Close(CloseReason::CallbackRejected(m)),
            Ok(()) => WsStep::SendBinary(self.buf.full_vec()),
        }
    }

    /// One text exchange: deliver the payload, then conclude by the
    /// handler's verdict.
    fn text_exchange<H: ConnectionHandler>(
        &mut self,
        handler: &mut H,
        elapsed_ms: u64,
        payload: Vec<u8>,
    ) -> (step: WsStep)
        ensures
            ws_text_rel(*old(self), payload@, *final(self), step),
            final(self).peer_spec() == old(self).peer_spec(),
            final(self).io_timeout_spec() == old(self).io_timeout_spec(),
    {
        let len = payload.len();
        if len == 0 {
            return WsStep::Close(CloseReason::EmptyMessage);
        }
        if len > MAX_BUFFER_SIZE {
            return WsStep::Close(CloseReason::Oversized(len));
        }
        let _loaded = self.buf.load(payload.as_slice());
        let mut kind = MessageType::Text;
        let verdict = handler.on_message(elapsed_ms, &self.peer, &mut kind, &mut self.buf);
        self.kind = kind;
        self.messages = bump(self.messages);
        let _staged = self.buf.size();
        self.conclude_text_exchange(verdict)
    }

    /// One binary exchange: deliver the payload, then conclude by the
    /// handler's verdict.
    fn binary_exchange<H: ConnectionHandler>(
        &mut self,
        handler: &mut H,
        elapsed_ms: u64,
        payload: Vec<u8>,
    ) -> (step: WsStep)
        ensures
            ws_binary_rel(*old(self), payload@, *final(self), step),
            final(self).peer_spec() == old(self).peer_spec(),
            final(self).io_timeout_spec() == old(self).io_timeout_spec(),
    {
        let len = payload.len();
        if len == 0 {
            return WsStep::Close(CloseReason::EmptyMessage);
        }
        if len > MAX_BUFFER_SIZE {
            return WsStep::Close(CloseReason::Oversized(len));
        }
        let _loaded = self.buf.load(payload.as_slice());
        let mut kind = MessageType::Binary;
        let verdict = handler.on_message(elapsed_ms, &self.peer, &mut kind, &mut self.buf);
        self.kind = kind;
        self.messages = bump(self.messages);
        let _staged = self.buf.size();
        self.conclude_binary_exchange(verdict)
    }
}

/// A text or binary frame whose payload exceeds the buffer capacity always
/// closes the connection with the oversize reason, whose close code is
/// `Size`, and its payload is never handed to the message handler.
pub proof fn law_ws_oversized(pre: WsEngine, frame: Frame, post: WsEngine, step: WsStep)
    requires
        ws_step_rel(pre, WsEvent::Frame(frame), post, step),
        match frame {
            Frame::Text(p) => p@.len() > MAX_BUFFER_SIZE as int,
            Frame::Binary(p) => p@.len() > MAX_BUFFER_SIZE as int,
            _ => false,
        },
    ensures
        step matches WsStep::Close(r) && r is Oversized,
        spec_close_code(step->Close_0) == WsCloseCode::Size,
        post.delivered() == pre.delivered(),
{
}

/// A text exchange whose handler output, once the buffer tail is
/// zero-filled, is not valid UTF-8 always closes the connection with the
/// UTF-8 failure, whose close code is `Invalid`; and whatever text the
/// engine does send back is valid UTF-8.
pub proof fn law_ws_text_utf8(pre: WsEngine, payload: Vec<u8>, post: WsEngine, step: WsStep)
    requires
        ws_step_rel(pre, WsEvent::Frame(Frame::Text(payload)), post, step),
        0 < payload@.len() <= MAX_BUFFER_SIZE as int,
    ensures
        step == WsStep::Close(CloseReason::NotUtf8) ==> {
            &&& !valid_utf8(post.buffer_view())
            &&& tail_zeroed(post)
            &&& spec_close_code(CloseReason::NotUtf8) == WsCloseCode::Invalid
        },
        step matches WsStep::SendText(v) ==> valid_utf8(v@) && tail_zeroed(post),
{
}

/// For an accepted text exchange, the revalidation decision is exact: the
/// connection closes with the UTF-8 failure precisely when the handler's
/// output, once the buffer tail is zero-filled, is not valid UTF-8.
pub proof fn law_ws_text_revalidation(
    pre: WsEngine,
    verdict: Result<(), String>,
    post: WsEngine,
    step: WsStep,
)
    requires
        ws_text_verdict_rel(pre, verdict, post, step),
        verdict is Ok,
    ensures
        (step == WsStep::Close(CloseReason::NotUtf8) <==> !valid_utf8(post.buffer_view())),
        tail_zeroed(post),
{
}

} // verus!
