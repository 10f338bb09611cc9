//! Adapter from 2024-11-05 clients to 2025-03-26 servers. The later version
//! adds audio content and the completions capability, both optional, so
//! every message passes unchanged.
use vstd::prelude::*;
use crate::json::{Json, JsonView};
use crate::protocol::adapter::ProtocolAdapter;
use crate::protocol::error::ProtocolError;
use crate::protocol::version::ProtocolVersion;

verus! {

pub struct V20241105ToV20250326Adapter;

impl V20241105ToV20250326Adapter {
    pub fn new() -> Self {
        Self
    }
}

impl ProtocolAdapter for V20241105ToV20250326Adapter {
    open spec fn spec_source_version(&self) -> ProtocolVersion {
        ProtocolVersion::V20241105
    }

    open spec fn spec_target_version(&self) -> ProtocolVersion {
        ProtocolVersion::V20250326
    }

    open spec fn response_translation(&self, response: JsonView) -> JsonView {
        response
    }

    open spec fn drops_notification(&self, notification: JsonView) -> bool {
        false
    }

    fn source_version(&self) -> (v: ProtocolVersion) {
        ProtocolVersion::V20241105
    }

    fn target_version(&self) -> (v: ProtocolVersion) {
        ProtocolVersion::V20250326
    }

    fn translate_request(&self, request: Json) -> (r: Result<Json, ProtocolError>) {
        Ok(request)
    }

    fn translate_response(&self, response: Json) -> (r: Result<Json, ProtocolError>) {
        Ok(response)
    }

    fn translate_notification(&self, notification: Json) -> (r: Result<Json, ProtocolError>) {
        Ok(notification)
    }
}

} // verus!
