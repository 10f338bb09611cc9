//! Adapter from 2025-03-26 clients to 2024-11-05 servers: audio content is
//! turned into a text description and resources/updated notifications are
//! refused.
use vstd::prelude::*;
use crate::json::{Json, JsonView};
use crate::protocol::adapter::{ProtocolAdapter, is_resources_updated, refuse_resources_updated};
use crate::protocol::adapters::edit::{
    ItemEdit, edit_result_array, edit_result_array_exec, result_has, result_has_exec,
};
use crate::protocol::error::ProtocolError;
use crate::protocol::version::ProtocolVersion;

verus! {

pub struct V20250326ToV20241105Adapter;

impl Default for V20250326ToV20241105Adapter {
    fn default() -> Self {
        Self::new()
    }
}

impl V20250326ToV20241105Adapter {
    pub fn new() -> Self {
        Self
    }
}

/// A tools/call response has each audio item of its content described as
/// text ("audio/*" when no MIME type is given); anything else is unchanged.
pub open spec fn audio_to_text_translation(response: JsonView) -> JsonView {
    if result_has(response, "content"@) {
        edit_result_array(response, "content"@, ItemEdit::AudioToText("audio/*"))
    } else {
        response
    }
}

impl ProtocolAdapter for V20250326ToV20241105Adapter {
    open spec fn spec_source_version(&self) -> ProtocolVersion {
        ProtocolVersion::V20250326
    }

    open spec fn spec_target_version(&self) -> ProtocolVersion {
        ProtocolVersion::V20241105
    }

    open spec fn response_translation(&self, response: JsonView) -> JsonView {
        audio_to_text_translation(response)
    }

    open spec fn drops_notification(&self, notification: JsonView) -> bool {
        is_resources_updated(notification)
    }

    fn source_version(&self) -> (v: ProtocolVersion) {
        ProtocolVersion::V20250326
    }

    fn target_version(&self) -> (v: ProtocolVersion) {
        ProtocolVersion::V20241105
    }

    fn translate_request(&self, request: Json) -> (r: Result<Json, ProtocolError>) {
        Ok(request)
    }

    fn translate_response(&self, response: Json) -> (r: Result<Json, ProtocolError>) {
        if result_has_exec(&response, "content") {
            return Ok(
                edit_result_array_exec(response, "content", ItemEdit::AudioToText("audio/*")),
            );
        }
        Ok(response)
    }

    fn translate_notification(&self, notification: Json) -> (r: Result<Json, ProtocolError>) {
        refuse_resources_updated(notification)
    }
}

} // verus!
