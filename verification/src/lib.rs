//! A single-connection packet server core: subprotocol negotiation, packet
//! dispatch to a registered callback, and the start/stop lifecycle.

pub mod address;
pub mod callback;
pub mod error;
pub mod gate;
pub mod server;
pub mod session;
pub mod transport;
