//! The MCP protocol: versions, version adapters, message translation and
//! the connection state machine.
pub mod adapter;
pub mod adapters;
pub mod error;
pub mod handshake;
pub mod message;
pub mod state;
pub mod translation;
pub mod version;
