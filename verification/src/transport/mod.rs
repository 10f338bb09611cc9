//! Transports to backend servers: their kinds and settings, the framing of
//! a server's output, and the handshake on a new connection.
pub mod http_sse;
pub mod pool;
pub mod stdio;
pub mod websocket;

use vstd::prelude::*;

verus! {

/// How the proxy talks to a backend server.
#[derive(Debug, Clone, Copy, PartialEq, Eq, Structural)]
pub enum TransportType {
    Stdio,
    HttpSse,
    WebSocket,
}

/// Why talking to a backend server failed.
#[derive(Debug, Clone, PartialEq, Eq)]
pub enum TransportError {
    /// The connection is closed.
    Closed,
    /// The server's output is not in the expected form.
    InvalidFormat,
    /// Sending failed.
    SendFailed(String),
    /// Receiving failed.
    ReceiveFailed(String),
    /// Connecting, or the handshake, failed.
    ConnectionFailed(String),
}

/// The state every connection keeps: whether it was closed.
pub struct ConnectionGate {
    closed: bool,
}

impl ConnectionGate {
    pub closed spec fn spec_closed(&self) -> bool {
        self.closed
    }

    /// An open connection.
    pub fn new() -> (r: Self)
        ensures
            !r.spec_closed(),
    {
        ConnectionGate { closed: false }
    }

    /// Whether the connection was closed.
    pub fn is_closed(&self) -> (r: bool)
        ensures
            r == self.spec_closed(),
    {
        self.closed
    }

    /// Closes the connection.
    pub fn close(&mut self)
        ensures
            final(self).spec_closed(),
    {
        self.closed = true;
    }

    /// Refuses to send or receive on a closed connection.
    pub fn check_open(&self) -> (r: Result<(), TransportError>)
        ensures
            self.spec_closed() ==> r == Err::<(), _>(TransportError::Closed),
            !self.spec_closed() ==> r is Ok,
    {
        if self.closed {
            Err(TransportError::Closed)
        } else {
            Ok(())
        }
    }
}

/// How a server's transport is configured.
pub enum TransportConfig {
    Stdio,
    HttpSse { url: String, headers: std::collections::HashMap<String, String>, timeout_ms: u64 },
    WebSocket { url: String, protocols: Vec<String>, auto_reconnect: bool },
}

/// What a stdio server runs: its command, arguments, environment and
/// working directory.
pub struct ProcessConfig {
    pub command: String,
    pub args: Vec<String>,
    pub env: std::collections::HashMap<String, String>,
    pub working_directory: Option<String>,
}

/// A transport of any kind.
pub enum AnyTransport {
    Stdio(stdio::StdioTransport),
    HttpSse(http_sse::HttpSseTransport),
    WebSocket(websocket::WebSocketTransport),
}

impl AnyTransport {
    /// The kind of the transport.
    pub fn transport_type(&self) -> (r: TransportType)
        ensures
            self is Stdio ==> r == TransportType::Stdio,
            self is HttpSse ==> r == TransportType::HttpSse,
            self is WebSocket ==> r == TransportType::WebSocket,
    {
        match self {
            AnyTransport::Stdio(t) => t.transport_type(),
            AnyTransport::HttpSse(t) => t.transport_type(),
            AnyTransport::WebSocket(t) => t.transport_type(),
        }
    }
}

/// The transport a server's configuration describes. A stdio transport runs
/// the server's command with its arguments, with its environment when that
/// is not empty, and in its working directory when it has one.
pub fn create_transport(config: TransportConfig, server: ProcessConfig) -> (r: AnyTransport)
    ensures
        match config {
            TransportConfig::Stdio => r matches AnyTransport::Stdio(t) && t.command == server.command && t.args
                == server.args && (if server.env.len() == 0 {
                t.env@.len() == 0
            } else {
                t.env == server.env
            }) && t.working_dir == server.working_directory,
            TransportConfig::HttpSse { url, headers, timeout_ms } => r matches AnyTransport::HttpSse(t) && t.url
                == url && t.headers == headers && t.timeout_ms == timeout_ms,
            TransportConfig::WebSocket { url, protocols, auto_reconnect } => r matches AnyTransport::WebSocket(t)
                && t.url == url && t.protocols == protocols && t.auto_reconnect == auto_reconnect,
        },
{
    match config {
        TransportConfig::Stdio => {
            let mut t = stdio::StdioTransport::new().with_command(server.command, server.args);
            if server.env.len() != 0 {
                t = t.with_env(server.env);
            }
            match server.working_directory {
                Some(dir) => t = t.with_working_dir(dir),
                None => {},
            }
            AnyTransport::Stdio(t)
        },
        TransportConfig::HttpSse { url, headers, timeout_ms } => AnyTransport::HttpSse(
            http_sse::HttpSseTransport::new(url, headers, timeout_ms),
        ),
        TransportConfig::WebSocket { url, protocols, auto_reconnect } => AnyTransport::WebSocket(
            websocket::WebSocketTransport::new(url, protocols, auto_reconnect),
        ),
    }
}

} // verus!
