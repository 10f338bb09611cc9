//! MCP Protocol Version 2024-11-05 specific types.
use vstd::prelude::*;
use crate::json::Json;

verus! {

/// Resource contents (v1 format - used in 2024-11-05 and 2025-03-26).
#[derive(Debug, Clone, PartialEq, Eq)]
pub struct ResourceContentsV1 {
    pub uri: String,
    pub mime_type: Option<String>,
    pub text: Option<String>,
    /// Base64 encoded
    pub blob: Option<String>,
}

/// Tool definition (v1 format - used in 2024-11-05 and 2025-03-26).
#[derive(Debug, Clone, PartialEq, Eq)]
pub struct ToolV1 {
    pub name: String,
    pub description: String,
    /// JSON Schema
    pub input_schema: Json,
}

/// Content (v1 format - used in 2024-11-05).
#[derive(Debug, Clone, PartialEq, Eq)]
pub enum ContentV1 {
    Text { text: String },
    /// `data` is Base64.
    Image { data: String, mime_type: String },
    Resource { resource: ResourceContentsV1 },
}

/// CallToolResult (v1 format - used in 2024-11-05).
#[derive(Debug, Clone, PartialEq, Eq)]
pub struct CallToolResultV1 {
    pub content: Vec<ContentV1>,
    pub is_error: Option<bool>,
}

} // verus!
