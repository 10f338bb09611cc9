//! The WebSocket transport.
use vstd::prelude::*;
use crate::transport::{ConnectionGate, TransportError, TransportType};

verus! {

/// The settings of a WebSocket transport.
pub struct WebSocketTransport {
    pub url: String,
    pub protocols: Vec<String>,
    pub auto_reconnect: bool,
}

impl WebSocketTransport {
    /// A WebSocket transport to `url` with these sub-protocols.
    pub fn new(url: String, protocols: Vec<String>, auto_reconnect: bool) -> (r: Self)
        ensures
            r.url == url,
            r.protocols == protocols,
            r.auto_reconnect == auto_reconnect,
    {
        WebSocketTransport { url, protocols, auto_reconnect }
    }

    /// The kind of this transport.
    pub fn transport_type(&self) -> (r: TransportType)
        ensures
            r == TransportType::WebSocket,
    {
        TransportType::WebSocket
    }

    /// A new connection over this transport.
    pub fn connect(&self) -> (r: WebSocketConnection)
        ensures
            r.url@ == self.url@,
            !r.gate.spec_closed(),
    {
        WebSocketConnection { url: self.url.clone(), gate: ConnectionGate::new() }
    }
}

/// A connection over WebSocket.
pub struct WebSocketConnection {
    pub url: String,
    pub gate: ConnectionGate,
}

impl WebSocketConnection {
    /// Sending is accepted on an open connection and refused on a closed one.
    pub fn send(&self, data: &[u8]) -> (r: Result<(), TransportError>)
        ensures
            self.gate.spec_closed() ==> r == Err::<(), _>(TransportError::Closed),
            !self.gate.spec_closed() ==> r is Ok,
    {
        self.gate.check_open()
    }

    /// Receiving is not supported: a closed connection says so, an open one
    /// reports an invalid format.
    pub fn recv(&self) -> (r: Result<Vec<u8>, TransportError>)
        ensures
            self.gate.spec_closed() ==> r == Err::<Vec<u8>, _>(TransportError::Closed),
            !self.gate.spec_closed() ==> r == Err::<Vec<u8>, _>(TransportError::InvalidFormat),
    {
        match self.gate.check_open() {
            Ok(()) => Err(TransportError::InvalidFormat),
            Err(e) => Err(e),
        }
    }

    /// Closes the connection.
    pub fn close(&mut self)
        ensures
            final(self).gate.spec_closed(),
            final(self).url == old(self).url,
    {
        self.gate.close();
    }

    /// Whether the connection was closed.
    pub fn is_closed(&self) -> (r: bool)
        ensures
            r == self.gate.spec_closed(),
    {
        self.gate.is_closed()
    }
}

} // verus!
