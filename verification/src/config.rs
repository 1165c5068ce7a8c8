//! Listener and client configuration. Both are immutable once a loop starts;
//! the listener's configuration is shared read-only across every connection
//! it spawns. Timeouts are in milliseconds, and zero disables a timeout: the
//! operation then blocks indefinitely.

use vstd::prelude::*;
use crate::tcp_protocol::TcpProtocol;
use crate::tls::TlsPrivateKeyType;

verus! {

/// Configuration of one listener.
#[derive(Clone, Debug)]
pub struct TcpServerConfig {
    /// The protocol every accepted connection speaks.
    pub protocol: TcpProtocol,
    /// The address to bind, as a host literal.
    pub address: String,
    /// The port to bind.
    pub port: u16,
    /// The socket's time-to-live hop count.
    pub ttl: u32,
    /// How long one accept attempt may block, in milliseconds; zero blocks
    /// indefinitely.
    pub accept_timeout_ms: u64,
    /// How long one read on a connection may block, in milliseconds; zero
    /// blocks indefinitely.
    pub io_timeout_ms: u64,
    /// Whether accepted streams are wrapped in TLS.
    pub tls: bool,
    /// Path of the PEM certificate chain, required when `tls` is set.
    pub tls_certificate_path: Option<String>,
    /// Path of the PEM private key, required when `tls` is set.
    pub tls_private_key_path: Option<String>,
    /// The private key's encoding.
    pub tls_private_type: Option<TlsPrivateKeyType>,
}

/// Configuration of one outbound client connection.
#[derive(Clone, Debug)]
pub struct TcpClientConfig {
    /// The target host.
    pub endpoint_address: String,
    /// The target port.
    pub port: u16,
    /// How long one read may block, in milliseconds; zero blocks
    /// indefinitely.
    pub io_timeout_ms: u64,
    /// Whether the stream is wrapped in TLS.
    pub tls: bool,
    /// Path of the PEM certificate-authority bundle, required when `tls` is
    /// set.
    pub tls_ca_path: Option<String>,
}

} // verus!
