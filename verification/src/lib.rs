//! Verified core of a small QUIC client/server demo.
//!
//! The library holds the logic that is worth proving: the shared message
//! and port types, the client- and server-side connection-event tallies
//! with their per-tick drain operations, the certificate-interaction
//! policy, the FIFO event queues that buffer transport events, and the
//! bootstrap configuration values. All transport mechanics (QUIC
//! handshake, encryption, delivery) live in the surrounding application,
//! which hands this library plain event values and applies the actions
//! it returns.

pub mod client;
pub mod queue;
pub mod server;
pub mod shared;

pub use shared::Port;
pub use shared::SharedMessage;
