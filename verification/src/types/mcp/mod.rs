//! MCP protocol version-specific types, one module per version.
pub mod v20241105;
pub mod v20250326;
pub mod v20250618;
