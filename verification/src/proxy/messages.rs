//! The proxy's own request and response shapes.
use vstd::prelude::*;
use crate::json::{Json, JsonView};
use crate::proxy::error::ProxyError;


verus! {

/// A request in the proxy's short form, tagged by its method.
#[derive(Debug, PartialEq, Eq)]
pub enum MCPRequest {
    List { params: ListParams },
    Call { params: CallParams },
    Read { params: ReadParams },
}

/// What a `list` request lists.
#[derive(Debug, Clone, Copy, PartialEq, Eq, Structural)]
pub enum ListParams {
    Tools,
    Resources,
    Prompts,
}

/// A tool call: the tool's name and its arguments.
#[derive(Debug, PartialEq, Eq)]
pub struct CallParams {
    pub tool: String,
    pub arguments: Json,
}

/// A resource read: the resource's URI.
#[derive(Debug, PartialEq, Eq)]
pub struct ReadParams {
    pub uri: String,
}

/// A JSON-RPC response of the proxy: a result or an error, never both.
#[derive(Debug, PartialEq, Eq)]
pub struct MCPResponse {
    pub jsonrpc: String,
    pub id: Option<Json>,
    pub result: Option<Json>,
    pub error: Option<MCPError>,
}

/// The error of a response.
#[derive(Debug, PartialEq, Eq)]
pub struct MCPError {
    pub code: i32,
    pub message: String,
    pub data: Option<Json>,
}

/// The JSON-RPC code for an internal error.
pub const INTERNAL_ERROR: i32 = -32603;

/// The JSON-RPC code for a method that was not found.
pub const METHOD_NOT_FOUND: i32 = -32601;

/// The view of an optional value.
pub open spec fn opt_json(o: Option<Json>) -> Option<JsonView> {
    match o {
        Some(j) => Some(j@),
        None => None,
    }
}

/// `r` is a successful response to request `id` carrying `result`.
pub open spec fn is_success(r: MCPResponse, id: Option<JsonView>, result: JsonView) -> bool {
    &&& r.jsonrpc@ == "2.0"@
    &&& opt_json(r.id) == id
    &&& opt_json(r.result) == Some(result)
    &&& r.error is None
}

/// `r` is an error response to request `id` with this code and message.
pub open spec fn is_failure(r: MCPResponse, id: Option<JsonView>, code: i32, message: Seq<char>) -> bool {
    &&& r.jsonrpc@ == "2.0"@
    &&& opt_json(r.id) == id
    &&& r.result is None
    &&& r.error matches Some(e) && e.code == code && e.message@ == message && e.data is None
}

impl MCPResponse {
    /// A successful response to request `id`.
    pub fn success(id: Option<Json>, result: Json) -> (r: MCPResponse)
        ensures
            is_success(r, opt_json(id), result@),
    {
        MCPResponse { jsonrpc: "2.0".to_string(), id, result: Some(result), error: None }
    }

    /// An error response to request `id`.
    pub fn failure(id: Option<Json>, code: i32, message: String) -> (r: MCPResponse)
        ensures
            is_failure(r, opt_json(id), code, message@),
    {
        MCPResponse {
            jsonrpc: "2.0".to_string(),
            id,
            result: None,
            error: Some(MCPError { code, message, data: None }),
        }
    }
}

impl ProxyError {
    /// The text this error carries.
    pub open spec fn text(self) -> Seq<char> {
        match self {
            ProxyError::InvalidRequest(m) => m@,
            ProxyError::ServerNotFound(m) => m@,
            ProxyError::ServerNotReady(m) => m@,
            ProxyError::Timeout => "Request timed out"@,
            ProxyError::Transport(m) => m@,
        }
    }

    /// The text this error carries.
    pub fn message(&self) -> (r: String)
        ensures
            r@ == self.text(),
    {
        match self {
            ProxyError::InvalidRequest(m) => m.clone(),
            ProxyError::ServerNotFound(m) => m.clone(),
            ProxyError::ServerNotReady(m) => m.clone(),
            ProxyError::Timeout => "Request timed out".to_string(),
            ProxyError::Transport(m) => m.clone(),
        }
    }
}

/// The response the proxy sends when handling a request failed: no id,
/// an internal error, and the error's text.
pub fn error_response(e: &ProxyError) -> (r: MCPResponse)
    ensures
        is_failure(r, None, INTERNAL_ERROR, e.text()),
{
    MCPResponse::failure(None, INTERNAL_ERROR, e.message())
}

} // verus!
