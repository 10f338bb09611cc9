//! Errors of the proxy's request handling.
use vstd::prelude::*;

verus! {

/// Why the proxy could not handle a request.
#[derive(Debug, Clone, PartialEq, Eq)]
pub enum ProxyError {
    /// The request, or a backend's answer to it, is not what was expected.
    InvalidRequest(String),
    /// No backend server can take the request.
    ServerNotFound(String),
    /// The backend server is still starting up.
    ServerNotReady(String),
    /// A backend server did not answer in time.
    Timeout,
    /// The connection to a backend server failed.
    Transport(String),
}

} // verus!
