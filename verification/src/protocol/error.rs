//! Errors of the protocol layer.
use vstd::prelude::*;
use crate::protocol::version::ProtocolVersion;

verus! {

/// The error a JSON parser reports; carried through unchanged.
#[verifier::external_type_specification]
#[verifier::external_body]
pub struct ExJsonParseError(serde_json::Error);

/// An I/O error; carried through unchanged.
#[verifier::external_type_specification]
#[verifier::external_body]
pub struct ExIoError(std::io::Error);

/// What can go wrong while negotiating versions or translating messages.
#[derive(Debug)]
pub enum ProtocolError {
    UnsupportedVersion { reported_version: String, supported_versions: Vec<String> },
    TranslationError {
        from_version: ProtocolVersion,
        to_version: ProtocolVersion,
        message_type: String,
        details: String,
    },
    MissingRequiredField { field_name: String, message_type: String, version: ProtocolVersion },
    InitializationTimeout { server_name: String, duration: std::time::Duration },
    InvalidStateTransition { from: String, to: String },
    /// A notification that the target version does not know; the caller drops it.
    UnsupportedNotification { method: String, version: ProtocolVersion },
    JsonError(serde_json::Error),
    IoError(std::io::Error),
}

} // verus!
