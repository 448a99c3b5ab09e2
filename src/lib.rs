//! A remote logging client: console-style log calls are framed as JSON
//! envelopes and handed to a WebSocket transport.
//!
//! The library holds the decisions (which endpoint, whether to connect,
//! what frame to send); the transport itself is driven by the caller.
pub mod endpoint;
pub mod envelope;
pub mod console;
pub mod guarantees;
