//! Connection core of a client for a message-oriented protocol over one
//! duplex socket: call dispatch, reply correlation, push delivery, keepalive
//! and session replay after reconnection, as a verified state machine.

pub mod types;
pub mod tables;
pub mod router;
pub mod client;
pub mod laws;
