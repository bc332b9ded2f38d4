//! The WebSocket side of the bridge.
pub mod server;
