//! The web UI's server side: API key checks, the replies of its HTTP API,
//! and the decisions of its live-update socket.
pub mod api;
pub mod ws;

use vstd::prelude::*;
use crate::text::{concat, str_eq};

verus! {

/// Why a request to the web UI was refused.
#[derive(Debug, Clone, Copy, PartialEq, Eq, Structural)]
pub enum AuthErrorKind {
    MissingApiKey,
    InvalidApiKey,
}

/// A refused request to the web UI.
#[derive(Debug, Clone, Copy, PartialEq, Eq, Structural)]
pub struct AuthError {
    pub kind: AuthErrorKind,
}

impl AuthError {
    /// The request carried no `Authorization` header.
    pub fn missing_api_key() -> (r: Self)
        ensures
            r.kind == AuthErrorKind::MissingApiKey,
    {
        AuthError { kind: AuthErrorKind::MissingApiKey }
    }

    /// The request's `Authorization` header did not carry the key.
    pub fn invalid_api_key() -> (r: Self)
        ensures
            r.kind == AuthErrorKind::InvalidApiKey,
    {
        AuthError { kind: AuthErrorKind::InvalidApiKey }
    }
}

/// Checks a request's `Authorization` header against the configured key:
/// it must read `Bearer ` followed by the key.
pub fn check_api_key(header: Option<&str>, api_key: &str) -> (r: Result<(), AuthError>)
    ensures
        match header {
            None => r == Err::<(), _>(AuthError { kind: AuthErrorKind::MissingApiKey }),
            Some(h) => if h@ == "Bearer "@ + api_key@ {
                r is Ok
            } else {
                r == Err::<(), _>(AuthError { kind: AuthErrorKind::InvalidApiKey })
            },
        },
{
    match header {
        None => Err(AuthError::missing_api_key()),
        Some(h) => {
            let expected = concat("Bearer ", api_key);
            if str_eq(h, expected.as_str()) {
                Ok(())
            } else {
                Err(AuthError::invalid_api_key())
            }
        },
    }
}

} // verus!
