//! Verified core of an MCP (Model Context Protocol) proxy.
pub mod clock;
pub mod json;
pub mod protocol;
pub mod proxy;
pub mod server;
pub mod state;
pub mod transport;
pub mod text;
pub mod types;
pub mod web;
