//! Protocol data types.
pub mod mcp;
