//! The lifecycle interface an embedding application supplies: one method per
//! connection event. The engine invokes these methods synchronously and
//! assumes nothing about what they do beyond their signatures, so every
//! engine contract holds for every possible handler.

use vstd::prelude::*;
use crate::message::{MessageBuffer, MessageType};
use crate::outcome::CloseReason;

verus! {

/// A peer or bind address as the engine sees it: a host literal and a port.
#[derive(Clone, Debug, PartialEq, Eq)]
pub struct SocketAddress {
    pub host: String,
    pub port: u16,
}

impl SocketAddress {
    pub fn new(host: String, port: u16) -> (a: SocketAddress)
        ensures
            a.host@ == host@,
            a.port == port,
    {
        SocketAddress { host, port }
    }
}

/// The caller-supplied callbacks, one method per lifecycle event. Returning
/// `Err` signals failure: for `on_accept` it aborts the connection before the
/// engine runs, for `on_message` it asks the engine to close, and for the
/// others it is surfaced to the caller of the surrounding loop. The `Err`
/// payload is the handler's own reason text.
pub trait ConnectionHandler {
    /// Invoked once after the listener socket is bound.
    fn on_bind(&mut self, addr: &SocketAddress) -> Result<(), String>;

    /// Invoked once per accepted connection, before the engine runs.
    fn on_accept(&mut self, addr: &SocketAddress) -> Result<(), String>;

    /// Invoked once per engine cycle with the inbound payload in `buf`. The
    /// handler may mutate `kind` and `buf` in place to stage an outbound
    /// message; a logical length of zero stages none.
    fn on_message(
        &mut self,
        elapsed_ms: u64,
        peer: &SocketAddress,
        kind: &mut MessageType,
        buf: &mut MessageBuffer,
    ) -> Result<(), String>;

    /// Invoked once per connection after the engine loop ends, with the
    /// reason the loop ended.
    fn on_close(&mut self, addr: &SocketAddress, reason: &CloseReason) -> Result<(), String>;

    /// Invoked once after the listener itself stops accepting.
    fn on_close_socket(&mut self, addr: &SocketAddress) -> Result<(), String>;
}

} // verus!
