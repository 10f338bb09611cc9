//! Tool definition conversions between the v1 and v2 (2025-06-18) formats.
use vstd::prelude::*;
use crate::types::mcp::{v20241105::ToolV1, v20250618::ToolV2};

verus! {

/// The v2 tool for a v1 tool: same name, description and input schema, no
/// title and no output schema.
pub open spec fn spec_tool_v1_to_v2(v1: ToolV1) -> ToolV2 {
    ToolV2 {
        name: v1.name,
        title: None,
        description: v1.description,
        input_schema: v1.input_schema,
        output_schema: None,
    }
}

/// The v1 tool for a v2 tool: the title and output schema are dropped.
pub open spec fn spec_tool_v2_to_v1(v2: ToolV2) -> ToolV1 {
    ToolV1 { name: v2.name, description: v2.description, input_schema: v2.input_schema }
}

/// Convert ToolV1 to ToolV2; the optional title and outputSchema are absent.
pub fn tool_v1_to_v2(v1: ToolV1) -> (r: ToolV2)
    ensures
        r == spec_tool_v1_to_v2(v1),
{
    ToolV2 {
        name: v1.name,
        title: None,
        description: v1.description,
        input_schema: v1.input_schema,
        output_schema: None,
    }
}

/// Convert ToolV2 to ToolV1, stripping the title and outputSchema.
pub fn tool_v2_to_v1(v2: ToolV2) -> (r: ToolV1)
    ensures
        r == spec_tool_v2_to_v1(v2),
{
    ToolV1 { name: v2.name, description: v2.description, input_schema: v2.input_schema }
}

/// Converting a v1 tool to v2 and back gives the original tool.
pub proof fn lemma_tool_round_trip(v1: ToolV1)
    ensures
        spec_tool_v2_to_v1(spec_tool_v1_to_v2(v1)) == v1,
{
}

} // verus!
