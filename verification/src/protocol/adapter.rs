//! The interface of protocol version adapters.
use vstd::prelude::*;
use crate::json::{Json, JsonView};
use crate::protocol::error::ProtocolError;
use crate::protocol::version::ProtocolVersion;
use crate::text::str_eq;

verus! {

/// Whether a notification is `notifications/resources/updated`, which
/// 2024-11-05 clients do not know.
pub open spec fn is_resources_updated(notification: JsonView) -> bool {
    notification.get_str("method"@) == Some("notifications/resources/updated"@)
}

/// The refusal of a resources/updated notification for 2024-11-05.
pub open spec fn is_resources_updated_refusal(r: Result<Json, ProtocolError>) -> bool {
    match r {
        Err(ProtocolError::UnsupportedNotification { method, version }) => {
            method@ == "notifications/resources/updated"@ && version == ProtocolVersion::V20241105
        },
        _ => false,
    }
}

/// Translates messages between the version a client speaks (the source) and
/// the version a backend server speaks (the target).
pub trait ProtocolAdapter {
    spec fn spec_source_version(&self) -> ProtocolVersion;

    spec fn spec_target_version(&self) -> ProtocolVersion;

    /// What a response from the target becomes for the source.
    spec fn response_translation(&self, response: JsonView) -> JsonView;

    /// Whether a notification from the target has no counterpart in the source.
    spec fn drops_notification(&self, notification: JsonView) -> bool;

    /// The protocol version this adapter translates from.
    fn source_version(&self) -> (v: ProtocolVersion)
        ensures
            v == self.spec_source_version(),
    ;

    /// The protocol version this adapter translates to.
    fn target_version(&self) -> (v: ProtocolVersion)
        ensures
            v == self.spec_target_version(),
    ;

    /// Translate a request from source to target version; requests of every
    /// supported version are compatible, so the request passes unchanged.
    fn translate_request(&self, request: Json) -> (r: Result<Json, ProtocolError>)
        ensures
            r == Ok::<Json, ProtocolError>(request),
    ;

    /// Translate a response from target back to source version.
    fn translate_response(&self, response: Json) -> (r: Result<Json, ProtocolError>)
        ensures
            r matches Ok(j) && j@ == self.response_translation(response@),
    ;

    /// Translate a notification from target back to source version; a
    /// notification the source does not know is refused, which tells the
    /// caller to drop it.
    fn translate_notification(&self, notification: Json) -> (r: Result<Json, ProtocolError>)
        ensures
            self.drops_notification(notification@) ==> is_resources_updated_refusal(r),
            !self.drops_notification(notification@) ==> r == Ok::<Json, ProtocolError>(
                notification,
            ),
    ;
}

/// Refuses `notifications/resources/updated`, which 2024-11-05 does not
/// know; passes any other notification.
pub fn refuse_resources_updated(notification: Json) -> (r: Result<Json, ProtocolError>)
    ensures
        is_resources_updated(notification@) ==> is_resources_updated_refusal(r),
        !is_resources_updated(notification@) ==> r == Ok::<Json, ProtocolError>(notification),
{
    let refuse = match notification.get_str("method") {
        Some(m) => str_eq(m, "notifications/resources/updated"),
        None => false,
    };
    if refuse {
        Err(
            ProtocolError::UnsupportedNotification {
                method: "notifications/resources/updated".to_string(),
                version: ProtocolVersion::V20241105,
            },
        )
    } else {
        Ok(notification)
    }
}

} // verus!
