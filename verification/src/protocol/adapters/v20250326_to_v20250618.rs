//! Adapter from 2025-03-26 clients to 2025-06-18 servers: resource contents
//! gain the `name` that 2025-06-18 requires.
use vstd::prelude::*;
use crate::json::{Json, JsonView};
use crate::protocol::adapter::ProtocolAdapter;
use crate::protocol::adapters::edit::{
    ItemEdit, edit_result_array, edit_result_array_exec, result_has, result_has_exec,
};
use crate::protocol::error::ProtocolError;
use crate::protocol::version::ProtocolVersion;

verus! {

pub struct V20250326ToV20250618Adapter;

impl V20250326ToV20250618Adapter {
    pub fn new() -> Self {
        Self
    }
}

/// A resources/read response has a name added to each resource content
/// lacking one; anything else is unchanged.
pub open spec fn contents_names_translation(response: JsonView) -> JsonView {
    if result_has(response, "contents"@) {
        edit_result_array(response, "contents"@, ItemEdit::AddResourceName)
    } else {
        response
    }
}

impl ProtocolAdapter for V20250326ToV20250618Adapter {
    open spec fn spec_source_version(&self) -> ProtocolVersion {
        ProtocolVersion::V20250326
    }

    open spec fn spec_target_version(&self) -> ProtocolVersion {
        ProtocolVersion::V20250618
    }

    open spec fn response_translation(&self, response: JsonView) -> JsonView {
        contents_names_translation(response)
    }

    open spec fn drops_notification(&self, notification: JsonView) -> bool {
        false
    }

    fn source_version(&self) -> (v: ProtocolVersion) {
        ProtocolVersion::V20250326
    }

    fn target_version(&self) -> (v: ProtocolVersion) {
        ProtocolVersion::V20250618
    }

    fn translate_request(&self, request: Json) -> (r: Result<Json, ProtocolError>) {
        Ok(request)
    }

    fn translate_response(&self, response: Json) -> (r: Result<Json, ProtocolError>) {
        if result_has_exec(&response, "contents") {
            return Ok(edit_result_array_exec(response, "contents", ItemEdit::AddResourceName));
        }
        Ok(response)
    }

    fn translate_notification(&self, notification: Json) -> (r: Result<Json, ProtocolError>) {
        Ok(notification)
    }
}

} // verus!
