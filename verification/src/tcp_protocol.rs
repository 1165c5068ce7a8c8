//! The wire protocol a listener speaks with every connection it accepts.

use vstd::prelude::*;

verus! {

/// Protocol selector for a listener: raw byte exchange, or WebSocket framing
/// on top of the same fixed-buffer contract.
#[derive(Clone, Copy, Debug, PartialEq, Eq, Structural)]
pub enum TcpProtocol {
    TcpNative,
    TcpWebsocket,
}

} // verus!
