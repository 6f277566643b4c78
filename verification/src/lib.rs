//! Gateway session engine: a verified core for a real-time event-gateway
//! client. The library models the protocol envelope, the session state
//! machine, the heartbeat schedule and the message-handling rules; the
//! surrounding process supplies the transport and performs the commands
//! this core emits.

pub mod connector;
pub mod data;
pub mod discord;
pub mod engine;
pub mod heartbeat;
pub mod text;
