//! The HTTP server-sent-events transport.
use vstd::prelude::*;
use crate::transport::{ConnectionGate, TransportError, TransportType};
use crate::text::concat;

verus! {

/// The settings of an HTTP SSE transport.
pub struct HttpSseTransport {
    pub url: String,
    pub headers: std::collections::HashMap<String, String>,
    pub timeout_ms: u64,
}

impl HttpSseTransport {
    /// An HTTP SSE transport to `url` with these headers and timeout.
    pub fn new(url: String, headers: std::collections::HashMap<String, String>, timeout_ms: u64) -> (r: Self)
        ensures
            r.url == url,
            r.headers == headers,
            r.timeout_ms == timeout_ms,
    {
        HttpSseTransport { url, headers, timeout_ms }
    }

    /// The kind of this transport.
    pub fn transport_type(&self) -> (r: TransportType)
        ensures
            r == TransportType::HttpSse,
    {
        TransportType::HttpSse
    }

    /// A new connection over this transport.
    pub fn connect(&self) -> (r: HttpSseConnection)
        ensures
            r.url@ == self.url@,
            !r.gate.spec_closed(),
    {
        HttpSseConnection { url: self.url.clone(), gate: ConnectionGate::new() }
    }
}

/// A connection over HTTP SSE.
pub struct HttpSseConnection {
    pub url: String,
    pub gate: ConnectionGate,
}

impl HttpSseConnection {
    /// Where a message is posted: the server's URL followed by `/message`;
    /// refused when the connection is closed.
    pub fn message_url(&self) -> (r: Result<String, TransportError>)
        ensures
            self.gate.spec_closed() ==> r == Err::<String, _>(TransportError::Closed),
            !self.gate.spec_closed() ==> (r matches Ok(u) && u@ == self.url@ + "/message"@),
    {
        match self.gate.check_open() {
            Ok(()) => Ok(concat(self.url.as_str(), "/message")),
            Err(e) => Err(e),
        }
    }

    /// Receiving over HTTP SSE is not supported: a closed connection says
    /// so, an open one reports an invalid format.
    pub fn recv(&self) -> (r: Result<Vec<u8>, TransportError>)
        ensures
            self.gate.spec_closed() ==> r == Err::<Vec<u8>, _>(TransportError::Closed),
            !self.gate.spec_closed() ==> r == Err::<Vec<u8>, _>(TransportError::InvalidFormat),
    {
        match self.gate.check_open() {
            Ok(()) => Err(TransportError::InvalidFormat),
            Err(e) => Err(e),
        }
    }
}

} // verus!
