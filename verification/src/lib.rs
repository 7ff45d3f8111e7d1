//! The decision logic of a minimal address-echo listener.
//!
//! The listener accepts connections, reads a request line and header lines
//! from each, and answers with the peer's IP address. Everything that
//! touches a socket lives with the caller; this crate holds the rules:
//! how a header line is parsed, how a connection advances from one
//! input to the next, what is logged, and what is sent back.

pub mod config;
pub mod exchange;
pub mod header;
pub mod header_set;
pub mod json;
pub mod listener;
pub mod object;
pub mod record;
pub mod session;
pub mod wire;
