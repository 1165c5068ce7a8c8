//! Configuration of the control-plane RPC server. The RPC transport itself
//! is a thin binding over an outside stack and carries no engine-level
//! logic; what is verified here is the configuration record and the same
//! TLS-material decision the byte-stream listener uses.

use vstd::prelude::*;
use crate::tls::{plan_server_identity, TlsMaterialError};

verus! {

/// Configuration of one RPC server endpoint. Durations are in milliseconds;
/// `None` leaves the corresponding keep-alive to the transport's default.
#[derive(Clone, Debug)]
pub struct GrpcServerConfig {
    /// The address to bind, as a host literal.
    pub address: String,
    /// The port to bind.
    pub port: u16,
    /// Whether the transport is wrapped in TLS.
    pub tls: bool,
    /// Path of the PEM certificate chain, required when `tls` is set.
    pub tls_certificate_path: Option<String>,
    /// Path of the PEM private key, required when `tls` is set.
    pub tls_private_key_path: Option<String>,
    /// Whether small writes go out without delay.
    pub tcp_no_delay: bool,
    /// TCP keep-alive interval, if any.
    pub tcp_keep_alive_ms: Option<u64>,
    /// HTTP/2 keep-alive ping interval, if any.
    pub http2_keepalive_interval_ms: Option<u64>,
    /// HTTP/2 keep-alive ping timeout, if any.
    pub http2_keepalive_timeout_ms: Option<u64>,
    /// Whether plain HTTP/1 requests are accepted too.
    pub accept_http1: bool,
}

impl GrpcServerConfig {
    /// Decides which identity files the runtime must read before it can
    /// serve: none without TLS, and exactly the configured pair with it.
    pub fn identity_paths(&self) -> (r: Result<Option<(String, String)>, TlsMaterialError>)
        ensures
            !self.tls ==> r == Ok::<Option<(String, String)>, TlsMaterialError>(
                None::<(String, String)>,
            ),
            self.tls ==> (r is Ok <==> (self.tls_certificate_path is Some
                && self.tls_private_key_path is Some)),
            self.tls ==> match r {
                Ok(paths) => {
                    &&& self.tls_certificate_path is Some
                    &&& self.tls_private_key_path is Some
                    &&& paths matches Some(p) && p.0@ == self.tls_certificate_path->0@ && p.1@
                        == self.tls_private_key_path->0@
                },
                Err(e) => {
                    ||| (self.tls_certificate_path is None && e
                        == TlsMaterialError::CertificatePathUnset)
                    ||| (self.tls_certificate_path is Some && self.tls_private_key_path is None
                        && e == TlsMaterialError::KeyPathUnset)
                },
            },
    {
        if !self.tls {
            Ok(None)
        } else {
            match plan_server_identity(&self.tls_certificate_path, &self.tls_private_key_path) {
                Ok(paths) => Ok(Some(paths)),
                Err(e) => Err(e),
            }
        }
    }
}

} // verus!
