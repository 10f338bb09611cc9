//! Adapter from 2025-06-18 clients to 2024-11-05 servers (backward
//! compatibility): fields that 2024-11-05 lacks are stripped, audio becomes
//! a text description and resources/updated notifications are refused.
use vstd::prelude::*;
use crate::json::{Json, JsonView};
use crate::protocol::adapter::{ProtocolAdapter, is_resources_updated, refuse_resources_updated};
use crate::protocol::adapters::edit::{
    ItemEdit, edit_result_array, edit_result_array_exec, remove_from_result,
    remove_from_result_exec, result_has, result_has_exec,
};
use crate::protocol::error::ProtocolError;
use crate::protocol::version::ProtocolVersion;

verus! {

pub struct V20250618ToV20241105Adapter;

impl V20250618ToV20241105Adapter {
    pub fn new() -> Self {
        Self
    }
}

/// tools/list: each tool loses `title` and `outputSchema`;
/// resources/read: each content loses `name` and `title`;
/// tools/call: the result loses `structuredContent` and each audio item of
/// its content is described as text ("unknown" when no MIME type is given);
/// anything else is unchanged.
pub open spec fn to_v20241105_translation(response: JsonView) -> JsonView {
    if result_has(response, "tools"@) {
        edit_result_array(response, "tools"@, ItemEdit::RemoveKeys("title", "outputSchema"))
    } else if result_has(response, "contents"@) {
        edit_result_array(response, "contents"@, ItemEdit::RemoveKeys("name", "title"))
    } else if result_has(response, "content"@) {
        edit_result_array(
            remove_from_result(response, "structuredContent"@),
            "content"@,
            ItemEdit::AudioToText("unknown"),
        )
    } else {
        response
    }
}

impl ProtocolAdapter for V20250618ToV20241105Adapter {
    open spec fn spec_source_version(&self) -> ProtocolVersion {
        ProtocolVersion::V20250618
    }

    open spec fn spec_target_version(&self) -> ProtocolVersion {
        ProtocolVersion::V20241105
    }

    open spec fn response_translation(&self, response: JsonView) -> JsonView {
        to_v20241105_translation(response)
    }

    open spec fn drops_notification(&self, notification: JsonView) -> bool {
        is_resources_updated(notification)
    }

    fn source_version(&self) -> (v: ProtocolVersion) {
        ProtocolVersion::V20250618
    }

    fn target_version(&self) -> (v: ProtocolVersion) {
        ProtocolVersion::V20241105
    }

    fn translate_request(&self, request: Json) -> (r: Result<Json, ProtocolError>) {
        Ok(request)
    }

    fn translate_response(&self, response: Json) -> (r: Result<Json, ProtocolError>) {
        if result_has_exec(&response, "tools") {
            return Ok(
                edit_result_array_exec(
                    response,
                    "tools",
                    ItemEdit::RemoveKeys("title", "outputSchema"),
                ),
            );
        }
        if result_has_exec(&response, "contents") {
            return Ok(
                edit_result_array_exec(response, "contents", ItemEdit::RemoveKeys("name", "title")),
            );
        }
        if result_has_exec(&response, "content") {
            let stripped = remove_from_result_exec(response, "structuredContent");
            return Ok(edit_result_array_exec(stripped, "content", ItemEdit::AudioToText("unknown")));
        }
        Ok(response)
    }

    fn translate_notification(&self, notification: Json) -> (r: Result<Json, ProtocolError>) {
        refuse_resources_updated(notification)
    }
}

} // verus!
