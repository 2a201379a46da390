//! Verified core of a per-user daemon that opens and keeps alive interactive
//! SSH master connections: the termination-sentinel acceptor, the wire
//! framing, the tunnel registry, the child supervisor and the two session
//! state machines (daemon side and client side).

pub mod terminator;
pub mod frame;
pub mod message;
pub mod registry;
pub mod supervisor;
pub mod session;
pub mod client;
