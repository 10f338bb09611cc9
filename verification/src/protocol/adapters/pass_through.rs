//! The adapter for a client and a server that speak the same version.
use vstd::prelude::*;
use crate::json::{Json, JsonView};
use crate::protocol::adapter::ProtocolAdapter;
use crate::protocol::error::ProtocolError;
use crate::protocol::version::ProtocolVersion;

verus! {

/// Pass-through adapter for when source and target versions are the same:
/// every message is returned unchanged.
pub struct PassThroughAdapter {
    pub version: ProtocolVersion,
}

impl PassThroughAdapter {
    pub fn new(version: ProtocolVersion) -> (r: Self)
        ensures
            r.version == version,
    {
        Self { version }
    }
}

impl ProtocolAdapter for PassThroughAdapter {
    open spec fn spec_source_version(&self) -> ProtocolVersion {
        self.version
    }

    open spec fn spec_target_version(&self) -> ProtocolVersion {
        self.version
    }

    open spec fn response_translation(&self, response: JsonView) -> JsonView {
        response
    }

    open spec fn drops_notification(&self, notification: JsonView) -> bool {
        false
    }

    fn source_version(&self) -> (v: ProtocolVersion) {
        self.version
    }

    fn target_version(&self) -> (v: ProtocolVersion) {
        self.version
    }

    fn translate_request(&self, request: Json) -> (r: Result<Json, ProtocolError>) {
        Ok(request)
    }

    fn translate_response(&self, response: Json) -> (r: Result<Json, ProtocolError>) {
        Ok(response)
    }

    fn translate_notification(&self, notification: Json) -> (r: Result<Json, ProtocolError>) {
        Ok(notification)
    }
}

} // verus!
