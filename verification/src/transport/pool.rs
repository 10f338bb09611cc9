//! The connection pool's decisions: the handshake on a new connection and
//! what a lookup of a server's connection comes to.
use vstd::prelude::*;
use crate::json::{Json, JsonView, kv, lemma_entries_view_ext};
use crate::protocol::message::{IdView, JsonRpcId, JsonRpcMessage, JsonRpcNotification, JsonRpcRequest, JsonRpcV2Message, MessageView};
use crate::transport::TransportError;
use crate::text::{concat, concat3, str_eq};

verus! {

/// The protocol version the proxy speaks to its servers.
pub const PROXY_PROTOCOL_VERSION: &'static str = "2025-03-26";

/// The parameters of the proxy's initialize request.
pub open spec fn initialize_params_view() -> JsonView {
    JsonView::Object(
        seq![
            ("protocolVersion"@, JsonView::Str(PROXY_PROTOCOL_VERSION@)),
            ("capabilities"@, JsonView::Object(Seq::empty())),
            (
                "clientInfo"@,
                JsonView::Object(
                    seq![("name"@, JsonView::Str("mcp-rust-proxy"@)), ("version"@, JsonView::Str("0.1.0"@))],
                ),
            ),
        ],
    )
}

/// The initialize request the proxy opens each connection with.
pub fn initialize_request() -> (r: JsonRpcMessage)
    ensures
        r@ == (MessageView::Request {
            id: IdView::Number(1),
            method: "initialize"@,
            params: Some(initialize_params_view()),
        }),
{
    let ghost whole = initialize_params_view();
    let info = vec![kv("name", Json::string("mcp-rust-proxy")), kv("version", Json::string("0.1.0"))];
    proof {
        lemma_entries_view_ext(info@, whole->Object_0[2].1->Object_0);
    }
    let params = vec![
        kv("protocolVersion", Json::string(PROXY_PROTOCOL_VERSION)),
        kv("capabilities", Json::empty_object()),
        kv("clientInfo", Json::Object(info)),
    ];
    proof {
        lemma_entries_view_ext(params@, whole->Object_0);
    }
    JsonRpcMessage::V2(
        JsonRpcV2Message::Request(
            JsonRpcRequest { id: JsonRpcId::Number(1), method: "initialize".to_string(), params: Some(Json::Object(params)) },
        ),
    )
}

/// The notification that ends the handshake.
pub fn initialized_notification() -> (r: JsonRpcMessage)
    ensures
        r@ == (MessageView::Notification { method: "notifications/initialized"@, params: None }),
{
    JsonRpcMessage::V2(
        JsonRpcV2Message::Notification(
            JsonRpcNotification { method: "notifications/initialized".to_string(), params: None },
        ),
    )
}

/// What a server said about itself when it answered the initialize request.
#[derive(Debug, PartialEq, Eq)]
pub struct ServerVersion {
    pub protocol_version: String,
    pub capabilities: Json,
}

/// How the answer to the initialize request is judged.
#[derive(Debug, PartialEq, Eq)]
pub enum InitializeOutcome {
    /// The server accepted; what it said about itself, when its response
    /// has a result.
    Accepted(Option<ServerVersion>),
    /// The server answered with an error.
    Refused,
    /// The answer is not a response.
    NotAResponse,
}

/// What a server's result says about it: its protocol version (`unknown`
/// when it gives none as a string) and its capabilities (none when it gives none).
pub open spec fn version_of(result: JsonView) -> (Seq<char>, JsonView) {
    (
        match result.get_str("protocolVersion"@) {
            Some(v) => v,
            None => "unknown"@,
        },
        match result.get("capabilities"@) {
            Some(c) => c,
            None => JsonView::Object(Seq::empty()),
        },
    )
}

/// Judges the answer to the initialize request.
pub fn check_initialize_response(answer: &JsonRpcMessage) -> (r: InitializeOutcome)
    ensures
        match answer@ {
            MessageView::Response { error, result, .. } => if error is Some {
                r is Refused
            } else {
                match result {
                    Some(res) => r matches InitializeOutcome::Accepted(Some(v)) && (v.protocol_version@, v.capabilities@)
                        == version_of(res),
                    None => r matches InitializeOutcome::Accepted(None),
                }
            },
            _ => r is NotAResponse,
        },
{
    match answer {
        JsonRpcMessage::V2(JsonRpcV2Message::Response(resp)) => {
            if resp.error.is_some() {
                return InitializeOutcome::Refused;
            }
            match &resp.result {
                Some(res) => {
                    let version = match res.get_str("protocolVersion") {
                        Some(v) => v.to_string(),
                        None => "unknown".to_string(),
                    };
                    let capabilities = match res.get("capabilities") {
                        Some(c) => c.deep_clone(),
                        None => Json::empty_object(),
                    };
                    InitializeOutcome::Accepted(Some(ServerVersion { protocol_version: version, capabilities }))
                },
                None => InitializeOutcome::Accepted(None),
            }
        },
        _ => InitializeOutcome::NotAResponse,
    }
}

/// The error for a server that refused the initialize request; `detail`
/// is the debug form of the error it sent.
pub fn initialize_failed(server_name: &str, detail: &str) -> (r: TransportError)
    ensures
        r matches TransportError::ConnectionFailed(m) && m@ == "Initialize failed for "@ + server_name@ + ": "@ + detail@,
{
    let head = concat3("Initialize failed for ", server_name, ": ");
    TransportError::ConnectionFailed(concat(head.as_str(), detail))
}

/// The error for an answer to the initialize request that is not a response.
pub fn invalid_initialize_response(server_name: &str) -> (r: TransportError)
    ensures
        r matches TransportError::ConnectionFailed(m) && m@ == "Invalid initialize response from "@ + server_name@,
{
    TransportError::ConnectionFailed(concat("Invalid initialize response from ", server_name))
}

/// Whether a server speaks the proxy's protocol version (the proxy only
/// warns when it does not).
pub fn version_matches(protocol_version: &str) -> (r: bool)
    ensures
        r == (protocol_version@ == PROXY_PROTOCOL_VERSION@),
{
    str_eq(protocol_version, PROXY_PROTOCOL_VERSION)
}

/// Why the pool could not give a connection.
#[derive(Debug, Clone, PartialEq, Eq)]
pub enum PoolError {
    ServerNotFound(String),
}

/// What a lookup of a server's connection comes to.
#[derive(Debug, PartialEq, Eq)]
pub enum PoolLookup {
    /// The open connection can be used.
    UseExisting,
    /// Connect anew with the server's transport (dropping a closed connection first).
    Reconnect { drop_closed: bool },
    /// The pool does not know the server.
    Unknown(PoolError),
}

/// Decides a lookup of `server_name`'s connection, given whether the pool
/// holds a connection (and whether it is closed) and whether it knows the
/// server's transport.
pub fn lookup_decision(server_name: &str, connection_closed: Option<bool>, has_transport: bool) -> (r: PoolLookup)
    ensures
        connection_closed == Some(false) ==> r is UseExisting,
        connection_closed != Some(false) && has_transport ==> r == (PoolLookup::Reconnect {
            drop_closed: connection_closed == Some(true),
        }),
        connection_closed != Some(false) && !has_transport ==> (r matches PoolLookup::Unknown(
            PoolError::ServerNotFound(m),
        ) && m@ == server_name@),
{
    match connection_closed {
        Some(false) => PoolLookup::UseExisting,
        _ => {
            if has_transport {
                PoolLookup::Reconnect { drop_closed: connection_closed == Some(true) }
            } else {
                PoolLookup::Unknown(PoolError::ServerNotFound(server_name.to_string()))
            }
        },
    }
}

} // verus!
