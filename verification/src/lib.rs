//! Connection-and-stream lifecycle engine for a secure multiplexed
//! transport: listener, per-connection accept loops, per-stream protocol
//! machines (echo and request/response), with verified half-close and
//! failure-isolation behaviour. The transport itself (handshakes, packets,
//! framing) is an outside collaborator; the engine decides, the host
//! performs the I/O.

pub mod chunks;
pub mod connection;
pub mod echo;
pub mod errors;
pub mod exchange;
pub mod half;
pub mod payload;
pub mod supervisor;
