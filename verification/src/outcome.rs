//! The terminal outcome of one connection: why its loop ended, which
//! WebSocket close code that reason carries on the wire, and which failure
//! class of the error taxonomy it belongs to.

use vstd::prelude::*;

verus! {

/// Why a connection's loop ended. Variants that carry a `String` hold text
/// that originated outside the engine: the runtime's rendering of an I/O
/// error, or the reason a handler gave when it rejected an exchange.
#[derive(Clone, Debug, PartialEq, Eq)]
pub enum CloseReason {
    /// A read on the stream failed; the payload is the runtime's error text.
    ReadError(String),
    /// No data arrived within the configured I/O timeout.
    ReadTimedOut,
    /// A write or flush on the stream failed.
    WriteError(String),
    /// Sending an outbound WebSocket frame failed.
    SendError(String),
    /// The WebSocket opening handshake failed.
    HandshakeFailed(String),
    /// The message handler asked for closure; the payload is its reason.
    CallbackRejected(String),
    /// The peer sent a WebSocket close frame: a clean shutdown.
    CleanClose,
    /// A frame or read carried more bytes than the buffer capacity; the
    /// payload is the offending length.
    Oversized(usize),
    /// A WebSocket text frame could not be read as text.
    MalformedText(String),
    /// The handler's output for a text frame was not valid UTF-8 once the
    /// buffer tail was zero-filled.
    NotUtf8,
    /// The peer sent an empty message.
    EmptyMessage,
}

/// The WebSocket close code the engine sends in its closing frame.
#[derive(Clone, Copy, Debug, PartialEq, Eq, Structural)]
pub enum WsCloseCode {
    Normal,
    Size,
    Invalid,
    Unsupported,
    Abnormal,
}

/// The class a close reason belongs to in the error taxonomy: transient I/O
/// failures end one connection and are never fatal to the listener; protocol
/// violations end the connection with a specific close code; a callback
/// rejection is a deliberate close request, not a fault; a clean shutdown is
/// no error at all.
#[derive(Clone, Copy, Debug, PartialEq, Eq, Structural)]
pub enum FailureClass {
    TransientIo,
    Protocol,
    CallbackRejection,
    CleanShutdown,
}

/// The close code each reason carries on the wire.
pub open spec fn spec_close_code(reason: CloseReason) -> WsCloseCode {
    match reason {
        CloseReason::CleanClose => WsCloseCode::Normal,
        CloseReason::CallbackRejected(_) => WsCloseCode::Normal,
        CloseReason::Oversized(_) => WsCloseCode::Size,
        CloseReason::NotUtf8 => WsCloseCode::Invalid,
        CloseReason::EmptyMessage => WsCloseCode::Invalid,
        CloseReason::MalformedText(_) => WsCloseCode::Unsupported,
        CloseReason::ReadError(_) => WsCloseCode::Abnormal,
        CloseReason::ReadTimedOut => WsCloseCode::Abnormal,
        CloseReason::WriteError(_) => WsCloseCode::Abnormal,
        CloseReason::SendError(_) => WsCloseCode::Abnormal,
        CloseReason::HandshakeFailed(_) => WsCloseCode::Abnormal,
    }
}

/// The failure class each reason belongs to.
pub open spec fn spec_failure_class(reason: CloseReason) -> FailureClass {
    match reason {
        CloseReason::ReadError(_) => FailureClass::TransientIo,
        CloseReason::ReadTimedOut => FailureClass::TransientIo,
        CloseReason::WriteError(_) => FailureClass::TransientIo,
        CloseReason::SendError(_) => FailureClass::TransientIo,
        CloseReason::HandshakeFailed(_) => FailureClass::TransientIo,
        CloseReason::CallbackRejected(_) => FailureClass::CallbackRejection,
        CloseReason::CleanClose => FailureClass::CleanShutdown,
        CloseReason::Oversized(_) => FailureClass::Protocol,
        CloseReason::MalformedText(_) => FailureClass::Protocol,
        CloseReason::NotUtf8 => FailureClass::Protocol,
        CloseReason::EmptyMessage => FailureClass::Protocol,
    }
}

impl CloseReason {
    /// The close code this reason carries on the wire.
    pub fn close_code(&self) -> (code: WsCloseCode)
        ensures
            code == spec_close_code(*self),
    {
        match self {
            CloseReason::CleanClose => WsCloseCode::Normal,
            CloseReason::CallbackRejected(_) => WsCloseCode::Normal,
            CloseReason::Oversized(_) => WsCloseCode::Size,
            CloseReason::NotUtf8 => WsCloseCode::Invalid,
            CloseReason::EmptyMessage => WsCloseCode::Invalid,
            CloseReason::MalformedText(_) => WsCloseCode::Unsupported,
            CloseReason::ReadError(_) => WsCloseCode::Abnormal,
            CloseReason::ReadTimedOut => WsCloseCode::Abnormal,
            CloseReason::WriteError(_) => WsCloseCode::Abnormal,
            CloseReason::SendError(_) => WsCloseCode::Abnormal,
            CloseReason::HandshakeFailed(_) => WsCloseCode::Abnormal,
        }
    }

    /// The failure class this reason belongs to.
    pub fn failure_class(&self) -> (class: FailureClass)
        ensures
            class == spec_failure_class(*self),
    {
        match self {
            CloseReason::ReadError(_) => FailureClass::TransientIo,
            CloseReason::ReadTimedOut => FailureClass::TransientIo,
            CloseReason::WriteError(_) => FailureClass::TransientIo,
            CloseReason::SendError(_) => FailureClass::TransientIo,
            CloseReason::HandshakeFailed(_) => FailureClass::TransientIo,
            CloseReason::CallbackRejected(_) => FailureClass::CallbackRejection,
            CloseReason::CleanClose => FailureClass::CleanShutdown,
            CloseReason::Oversized(_) => FailureClass::Protocol,
            CloseReason::MalformedText(_) => FailureClass::Protocol,
            CloseReason::NotUtf8 => FailureClass::Protocol,
            CloseReason::EmptyMessage => FailureClass::Protocol,
        }
    }

    /// True exactly for the timeout-classified close reason.
    pub fn is_timeout(&self) -> (b: bool)
        ensures
            b == (*self is ReadTimedOut),
    {
        match self {
            CloseReason::ReadTimedOut => true,
            _ => false,
        }
    }
}

} // verus!
