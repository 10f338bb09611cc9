//! Adapter from 2025-06-18 clients to 2025-03-26 servers: the titles,
//! output schemas, resource names and structured content that 2025-03-26
//! lacks are stripped.
use vstd::prelude::*;
use crate::json::{Json, JsonView};
use crate::protocol::adapter::ProtocolAdapter;
use crate::protocol::adapters::edit::{
    ItemEdit, edit_result_array, edit_result_array_exec, remove_from_result,
    remove_from_result_exec, result_has, result_has_exec,
};
use crate::protocol::error::ProtocolError;
use crate::protocol::version::ProtocolVersion;

verus! {

pub struct V20250618ToV20250326Adapter;

impl V20250618ToV20250326Adapter {
    pub fn new() -> Self {
        Self
    }
}

/// tools/list: each tool loses `title` and `outputSchema`;
/// resources/list: each resource loses `title`;
/// resources/read: each content loses `name` and `title`;
/// tools/call: the result loses `structuredContent`;
/// anything else is unchanged.
pub open spec fn to_v20250326_translation(response: JsonView) -> JsonView {
    if result_has(response, "tools"@) {
        edit_result_array(response, "tools"@, ItemEdit::RemoveKeys("title", "outputSchema"))
    } else if result_has(response, "resources"@) {
        edit_result_array(response, "resources"@, ItemEdit::RemoveKey("title"))
    } else if result_has(response, "contents"@) {
        edit_result_array(response, "contents"@, ItemEdit::RemoveKeys("name", "title"))
    } else if result_has(response, "content"@) {
        remove_from_result(response, "structuredContent"@)
    } else {
        response
    }
}

impl ProtocolAdapter for V20250618ToV20250326Adapter {
    open spec fn spec_source_version(&self) -> ProtocolVersion {
        ProtocolVersion::V20250618
    }

    open spec fn spec_target_version(&self) -> ProtocolVersion {
        ProtocolVersion::V20250326
    }

    open spec fn response_translation(&self, response: JsonView) -> JsonView {
        to_v20250326_translation(response)
    }

    open spec fn drops_notification(&self, notification: JsonView) -> bool {
        false
    }

    fn source_version(&self) -> (v: ProtocolVersion) {
        ProtocolVersion::V20250618
    }

    fn target_version(&self) -> (v: ProtocolVersion) {
        ProtocolVersion::V20250326
    }

    fn translate_request(&self, request: Json) -> (r: Result<Json, ProtocolError>) {
        Ok(request)
    }

    fn translate_response(&self, response: Json) -> (r: Result<Json, ProtocolError>) {
        if result_has_exec(&response, "tools") {
            return Ok(
                edit_result_array_exec(
                    response,
                    "tools",
                    ItemEdit::RemoveKeys("title", "outputSchema"),
                ),
            );
        }
        if result_has_exec(&response, "resources") {
            return Ok(edit_result_array_exec(response, "resources", ItemEdit::RemoveKey("title")));
        }
        if result_has_exec(&response, "contents") {
            return Ok(
                edit_result_array_exec(response, "contents", ItemEdit::RemoveKeys("name", "title")),
            );
        }
        if result_has_exec(&response, "content") {
            return Ok(remove_from_result_exec(response, "structuredContent"));
        }
        Ok(response)
    }

    fn translate_notification(&self, notification: Json) -> (r: Result<Json, ProtocolError>) {
        Ok(notification)
    }
}

} // verus!
