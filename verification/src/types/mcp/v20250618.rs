//! MCP Protocol Version 2025-06-18 specific types.
use vstd::prelude::*;
use crate::json::Json;
pub use crate::types::mcp::v20250326::ContentV2;

verus! {

/// Resource contents (v2 format - adds the required `name` in 2025-06-18).
#[derive(Debug, Clone, PartialEq, Eq)]
pub struct ResourceContentsV2 {
    pub uri: String,
    /// Required in 2025-06-18.
    pub name: String,
    pub title: Option<String>,
    pub mime_type: Option<String>,
    pub text: Option<String>,
    /// Base64 encoded
    pub blob: Option<String>,
}

/// Tool definition (v2 format - adds title and outputSchema in 2025-06-18).
#[derive(Debug, Clone, PartialEq, Eq)]
pub struct ToolV2 {
    pub name: String,
    pub title: Option<String>,
    pub description: String,
    pub input_schema: Json,
    pub output_schema: Option<Json>,
}

/// CallToolResult (v3 format - adds structuredContent in 2025-06-18).
#[derive(Debug, Clone, PartialEq, Eq)]
pub struct CallToolResultV3 {
    pub content: Vec<ContentV2>,
    pub structured_content: Option<Json>,
    pub is_error: Option<bool>,
}

} // verus!
