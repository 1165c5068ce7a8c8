//! Connection engine for a dual-protocol byte-stream server.
//!
//! The crate models the decision core of a callback-driven transport: a
//! listener accept loop with bounded-time accepts and graceful shutdown, a
//! per-connection read/process/write cycle with bounded-time reads, a
//! WebSocket framing adapter that maps text and binary frames onto one
//! fixed-size buffer contract, and the validation of TLS material
//! configuration. Every decision the engine takes is a verified function
//! from the previous state and an observed event to the next state and the
//! action the runtime must perform; the runtime that owns the sockets feeds
//! events in and carries the actions out.

pub mod client_engine;
pub mod config;
pub mod encoding;
pub mod grpc;
pub mod handler;
pub mod lifecycle;
pub mod listener;
pub mod message;
pub mod native;
pub mod outcome;
pub mod raft;
pub mod tally;
pub mod tcp_protocol;
pub mod tls;
pub mod websocket;
