//! MCP Protocol Version 2025-03-26 specific types.
use vstd::prelude::*;
pub use crate::types::mcp::v20241105::{ResourceContentsV1, ToolV1};

verus! {

/// Content (v2 format - adds audio in 2025-03-26).
#[derive(Debug, Clone, PartialEq, Eq)]
pub enum ContentV2 {
    Text { text: String },
    /// `data` is Base64.
    Image { data: String, mime_type: String },
    /// `data` is Base64.
    Audio { data: String, mime_type: String },
    /// Still uses the v1 resource format.
    Resource { resource: ResourceContentsV1 },
}

/// CallToolResult (v2 format - uses ContentV2 with audio support).
#[derive(Debug, Clone, PartialEq, Eq)]
pub struct CallToolResultV2 {
    pub content: Vec<ContentV2>,
    pub is_error: Option<bool>,
}

} // verus!
