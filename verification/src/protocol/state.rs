//! The connection state machine of a backend server: the initialize
//! handshake, failure and readiness.
use vstd::prelude::*;
use crate::clock::now_nanos;
use crate::protocol::adapters::VersionAdapter;
use crate::protocol::error::ProtocolError;
use crate::protocol::version::ProtocolVersion;
use crate::text::{concat, concat3, debug_quoted, debug_quoted_exec, decimal_string, decimal_text, str_eq};

verus! {

/// Connection state, following the initialization sequence. Times are
/// nanoseconds on the clock of `crate::clock`.
pub enum ConnectionState {
    /// Connection being established
    Connecting,
    /// Sent initialize request, waiting for response
    Initializing { request_id: String, started_at: u64 },
    /// Received initialize response, sending initialized notification
    SendingInitialized { protocol_version: ProtocolVersion },
    /// Fully initialized and ready for normal requests
    Ready { protocol_version: ProtocolVersion, initialized_at: u64 },
    /// Connection failed during initialization
    Failed { error: String, failed_at: u64 },
    /// Connection is being closed
    Closing,
}

/// The name of a protocol version as Rust's `Debug` writes it.
pub open spec fn version_debug(v: ProtocolVersion) -> Seq<char> {
    match v {
        ProtocolVersion::V20241105 => "V20241105"@,
        ProtocolVersion::V20250326 => "V20250326"@,
        ProtocolVersion::V20250618 => "V20250618"@,
    }
}

fn version_debug_exec(v: ProtocolVersion) -> (r: &'static str)
    ensures
        r@ == version_debug(v),
{
    match v {
        ProtocolVersion::V20241105 => "V20241105",
        ProtocolVersion::V20250326 => "V20250326",
        ProtocolVersion::V20250618 => "V20250618",
    }
}

/// A time of the state, as the monotonic clock's `Debug` writes an instant
/// on Linux: whole seconds and the nanoseconds beyond them.
pub open spec fn instant_debug(t: u64) -> Seq<char> {
    "Instant { tv_sec: "@ + decimal_text((t / 1_000_000_000) as nat) + ", tv_nsec: "@ + decimal_text(
        (t % 1_000_000_000) as nat,
    ) + " }"@
}

fn instant_debug_exec(t: u64) -> (r: String)
    ensures
        r@ == instant_debug(t),
{
    let secs = decimal_string(t / 1_000_000_000);
    let nanos = decimal_string(t % 1_000_000_000);
    let a = concat("Instant { tv_sec: ", secs.as_str());
    let b = concat3(a.as_str(), ", tv_nsec: ", nanos.as_str());
    concat(b.as_str(), " }")
}

/// A state as Rust's `Debug` writes it, fields included: the text a refused
/// transition names its starting state by.
pub open spec fn state_debug(s: ConnectionState) -> Seq<char> {
    match s {
        ConnectionState::Connecting => "Connecting"@,
        ConnectionState::Initializing { request_id, started_at } => "Initializing { request_id: "@ + debug_quoted(
            request_id@,
        ) + ", started_at: "@ + instant_debug(started_at) + " }"@,
        ConnectionState::SendingInitialized { protocol_version } => "SendingInitialized { protocol_version: "@
            + version_debug(protocol_version) + " }"@,
        ConnectionState::Ready { protocol_version, initialized_at } => "Ready { protocol_version: "@ + version_debug(
            protocol_version,
        ) + ", initialized_at: "@ + instant_debug(initialized_at) + " }"@,
        ConnectionState::Failed { error, failed_at } => "Failed { error: "@ + debug_quoted(error@) + ", failed_at: "@
            + instant_debug(failed_at) + " }"@,
        ConnectionState::Closing => "Closing"@,
    }
}

/// The protocol version a state knows of: the one the server answered with,
/// from the initialize response on.
pub open spec fn state_protocol_version(s: ConnectionState) -> Option<ProtocolVersion> {
    match s {
        ConnectionState::Ready { protocol_version, .. } => Some(protocol_version),
        ConnectionState::SendingInitialized { protocol_version } => Some(protocol_version),
        _ => None,
    }
}

/// Whether a request for `method` may be sent in state `s`: initialize only
/// while connecting, every other method only when ready.
pub open spec fn may_send(s: ConnectionState, method: Seq<char>) -> bool {
    if method == "initialize"@ {
        s is Connecting
    } else {
        s is Ready
    }
}

/// The error for a refused transition from `s` to the state named `to`.
pub open spec fn is_transition_error(r: Result<(), ProtocolError>, s: ConnectionState, to: Seq<char>) -> bool {
    match r {
        Err(ProtocolError::InvalidStateTransition { from, to: t }) => from@ == state_debug(s) && t@ == to,
        _ => false,
    }
}


/// A step of the initialize handshake.
pub enum HandshakeEvent {
    /// The initialize request was sent.
    StartInitialization { request_id: String, now: u64 },
    /// The initialize response arrived, naming the server's version.
    ReceivedInitializeResponse { protocol_version: ProtocolVersion, now: u64 },
    /// The initialized notification was sent.
    CompleteInitialization { now: u64 },
}

/// The state a handshake step leads to, or none when the step is not allowed
/// in state `s`.
pub open spec fn next_state(s: ConnectionState, e: HandshakeEvent) -> Option<ConnectionState> {
    match (s, e) {
        (ConnectionState::Connecting, HandshakeEvent::StartInitialization { request_id, now }) => {
            Some(ConnectionState::Initializing { request_id, started_at: now })
        },
        (
            ConnectionState::Initializing { .. },
            HandshakeEvent::ReceivedInitializeResponse { protocol_version, .. },
        ) => Some(ConnectionState::SendingInitialized { protocol_version }),
        (
            ConnectionState::SendingInitialized { protocol_version },
            HandshakeEvent::CompleteInitialization { now },
        ) => Some(ConnectionState::Ready { protocol_version, initialized_at: now }),
        _ => None,
    }
}

/// The position of a state in the handshake order.
pub open spec fn handshake_stage(s: ConnectionState) -> int {
    match s {
        ConnectionState::Connecting => 0,
        ConnectionState::Initializing { .. } => 1,
        ConnectionState::SendingInitialized { .. } => 2,
        ConnectionState::Ready { .. } => 3,
        _ => -1,
    }
}

/// Every allowed handshake step moves exactly one stage forward, and only
/// from the stage before it.
pub proof fn lemma_handshake_steps_in_order(s: ConnectionState, e: HandshakeEvent)
    ensures
        next_state(s, e) is Some ==> handshake_stage(next_state(s, e)->0) == handshake_stage(s) + 1,
        next_state(s, e) is Some ==> 0 <= handshake_stage(s) <= 2,
{
}

/// Starting, receiving the response for version `v`, and completing leads
/// from Connecting to Ready with version `v`; the protocol version reported
/// from the response on is `v`.
pub proof fn lemma_handshake_reaches_ready(request_id: String, v: ProtocolVersion, t1: u64, t2: u64, t3: u64)
    ensures
        ({
            let s1 = next_state(ConnectionState::Connecting, HandshakeEvent::StartInitialization { request_id, now: t1 });
            let s2 = next_state(s1->0, HandshakeEvent::ReceivedInitializeResponse { protocol_version: v, now: t2 });
            let s3 = next_state(s2->0, HandshakeEvent::CompleteInitialization { now: t3 });
            &&& s1 is Some && s2 is Some && s3 is Some
            &&& s3->0 == (ConnectionState::Ready { protocol_version: v, initialized_at: t3 })
            &&& state_protocol_version(s2->0) == Some(v)
            &&& state_protocol_version(s3->0) == Some(v)
            &&& may_send(s3->0, "tools/list"@)
            &&& !may_send(s1->0, "tools/list"@)
            &&& !may_send(s2->0, "tools/list"@)
        }),
{
    reveal_strlit("tools/list");
    reveal_strlit("initialize");
    assert("tools/list"@ != "initialize"@) by {
        assert("tools/list"@[0] != "initialize"@[0]);
    }
}

impl ConnectionState {
    /// A copy of this state.
    pub fn copy(&self) -> (r: ConnectionState)
        ensures
            r == *self,
    {
        match self {
            ConnectionState::Connecting => ConnectionState::Connecting,
            ConnectionState::Initializing { request_id, started_at } => ConnectionState::Initializing {
                request_id: request_id.clone(),
                started_at: *started_at,
            },
            ConnectionState::SendingInitialized { protocol_version } => {
                ConnectionState::SendingInitialized { protocol_version: *protocol_version }
            },
            ConnectionState::Ready { protocol_version, initialized_at } => ConnectionState::Ready {
                protocol_version: *protocol_version,
                initialized_at: *initialized_at,
            },
            ConnectionState::Failed { error, failed_at } => ConnectionState::Failed {
                error: error.clone(),
                failed_at: *failed_at,
            },
            ConnectionState::Closing => ConnectionState::Closing,
        }
    }

    /// This state as Rust's `Debug` writes it (see `state_debug`).
    pub fn debug_text(&self) -> (r: String)
        ensures
            r@ == state_debug(*self),
    {
        match self {
            ConnectionState::Connecting => "Connecting".to_string(),
            ConnectionState::Initializing { request_id, started_at } => {
                let q = debug_quoted_exec(request_id.as_str());
                let t = instant_debug_exec(*started_at);
                let a = concat3("Initializing { request_id: ", q.as_str(), ", started_at: ");
                concat3(a.as_str(), t.as_str(), " }")
            },
            ConnectionState::SendingInitialized { protocol_version } => {
                concat3("SendingInitialized { protocol_version: ", version_debug_exec(*protocol_version), " }")
            },
            ConnectionState::Ready { protocol_version, initialized_at } => {
                let t = instant_debug_exec(*initialized_at);
                let a = concat3("Ready { protocol_version: ", version_debug_exec(*protocol_version), ", initialized_at: ");
                concat3(a.as_str(), t.as_str(), " }")
            },
            ConnectionState::Failed { error, failed_at } => {
                let q = debug_quoted_exec(error.as_str());
                let t = instant_debug_exec(*failed_at);
                let a = concat3("Failed { error: ", q.as_str(), ", failed_at: ");
                concat3(a.as_str(), t.as_str(), " }")
            },
            ConnectionState::Closing => "Closing".to_string(),
        }
    }
}

/// The connection state and protocol adapter of a backend server.
pub struct ServerConnectionState {
    state: ConnectionState,
    server_name: String,
    adapter: Option<VersionAdapter>,
    last_activity: u64,
}

impl ServerConnectionState {
    /// The current state.
    pub closed spec fn spec_state(&self) -> ConnectionState {
        self.state
    }

    /// The server this state belongs to.
    pub closed spec fn spec_server_name(&self) -> Seq<char> {
        self.server_name@
    }

    /// The adapter set for this connection, if any.
    pub closed spec fn spec_adapter(&self) -> Option<VersionAdapter> {
        self.adapter
    }

    /// When the state last changed.
    pub closed spec fn spec_last_activity(&self) -> u64 {
        self.last_activity
    }

    /// A connection that is just being established, with no adapter.
    pub fn new(server_name: String) -> (r: Self)
        ensures
            r.spec_state() == ConnectionState::Connecting,
            r.spec_server_name() == server_name@,
            r.spec_adapter() is None,
    {
        let now = now_nanos();
        Self { state: ConnectionState::Connecting, server_name, adapter: None, last_activity: now }
    }

    /// The current state.
    pub fn get_state(&self) -> (r: ConnectionState)
        ensures
            r == self.spec_state(),
    {
        self.state.copy()
    }

    /// Connecting → Initializing, at time `now`; refused in any other state,
    /// which is left unchanged.
    pub fn start_initialization_at(&mut self, request_id: String, now: u64) -> (r: Result<(), ProtocolError>)
        ensures
            match next_state(old(self).spec_state(), HandshakeEvent::StartInitialization { request_id, now }) {
                Some(s2) => {
                    &&& r is Ok
                    &&& final(self).spec_state() == s2
                    &&& final(self).spec_last_activity() == now
                },
                None => {
                    &&& is_transition_error(r, old(self).spec_state(), "Initializing"@)
                    &&& final(self).spec_state() == old(self).spec_state()
                    &&& final(self).spec_last_activity() == old(self).spec_last_activity()
                },
            },
            final(self).spec_server_name() == old(self).spec_server_name(),
            final(self).spec_adapter() == old(self).spec_adapter(),
    {
        match self.state {
            ConnectionState::Connecting => {
                self.state = ConnectionState::Initializing { request_id, started_at: now };
                self.last_activity = now;
                Ok(())
            },
            _ => Err(
                ProtocolError::InvalidStateTransition {
                    from: self.state.debug_text(),
                    to: "Initializing".to_string(),
                },
            ),
        }
    }

    /// Connecting → Initializing, now.
    pub fn start_initialization(&mut self, request_id: String) -> (r: Result<(), ProtocolError>)
        ensures
            old(self).spec_state() is Connecting ==> {
                &&& r is Ok
                &&& final(self).spec_state() matches ConnectionState::Initializing { request_id: id, .. }
                &&& final(self).spec_state()->request_id == request_id
            },
            !(old(self).spec_state() is Connecting) ==> {
                &&& is_transition_error(r, old(self).spec_state(), "Initializing"@)
                &&& final(self).spec_state() == old(self).spec_state()
            },
            final(self).spec_server_name() == old(self).spec_server_name(),
            final(self).spec_adapter() == old(self).spec_adapter(),
    {
        let now = now_nanos();
        self.start_initialization_at(request_id, now)
    }

    /// Initializing → SendingInitialized with the version the server answered
    /// with, at time `now`; refused in any other state, which is left unchanged.
    pub fn received_initialize_response_at(&mut self, protocol_version: ProtocolVersion, now: u64) -> (r: Result<(), ProtocolError>)
        ensures
            match next_state(old(self).spec_state(), HandshakeEvent::ReceivedInitializeResponse { protocol_version, now }) {
                Some(s2) => {
                    &&& r is Ok
                    &&& final(self).spec_state() == s2
                    &&& final(self).spec_last_activity() == now
                },
                None => {
                    &&& is_transition_error(r, old(self).spec_state(), "SendingInitialized"@)
                    &&& final(self).spec_state() == old(self).spec_state()
                    &&& final(self).spec_last_activity() == old(self).spec_last_activity()
                },
            },
            final(self).spec_server_name() == old(self).spec_server_name(),
            final(self).spec_adapter() == old(self).spec_adapter(),
    {
        match self.state {
            ConnectionState::Initializing { .. } => {
                self.state = ConnectionState::SendingInitialized { protocol_version };
                self.last_activity = now;
                Ok(())
            },
            _ => Err(
                ProtocolError::InvalidStateTransition {
                    from: self.state.debug_text(),
                    to: "SendingInitialized".to_string(),
                },
            ),
        }
    }

    /// Initializing → SendingInitialized, now.
    pub fn received_initialize_response(&mut self, protocol_version: ProtocolVersion) -> (r: Result<(), ProtocolError>)
        ensures
            old(self).spec_state() is Initializing ==> {
                &&& r is Ok
                &&& final(self).spec_state() == (ConnectionState::SendingInitialized { protocol_version })
            },
            !(old(self).spec_state() is Initializing) ==> {
                &&& is_transition_error(r, old(self).spec_state(), "SendingInitialized"@)
                &&& final(self).spec_state() == old(self).spec_state()
            },
            final(self).spec_server_name() == old(self).spec_server_name(),
            final(self).spec_adapter() == old(self).spec_adapter(),
    {
        let now = now_nanos();
        self.received_initialize_response_at(protocol_version, now)
    }

    /// SendingInitialized → Ready, keeping the negotiated version, at time
    /// `now`; refused in any other state, which is left unchanged.
    pub fn complete_initialization_at(&mut self, now: u64) -> (r: Result<(), ProtocolError>)
        ensures
            match next_state(old(self).spec_state(), HandshakeEvent::CompleteInitialization { now }) {
                Some(s2) => {
                    &&& r is Ok
                    &&& final(self).spec_state() == s2
                    &&& final(self).spec_last_activity() == now
                },
                None => {
                    &&& is_transition_error(r, old(self).spec_state(), "Ready"@)
                    &&& final(self).spec_state() == old(self).spec_state()
                    &&& final(self).spec_last_activity() == old(self).spec_last_activity()
                },
            },
            final(self).spec_server_name() == old(self).spec_server_name(),
            final(self).spec_adapter() == old(self).spec_adapter(),
    {
        match self.state {
            ConnectionState::SendingInitialized { protocol_version } => {
                self.state = ConnectionState::Ready { protocol_version, initialized_at: now };
                self.last_activity = now;
                Ok(())
            },
            _ => Err(
                ProtocolError::InvalidStateTransition {
                    from: self.state.debug_text(),
                    to: "Ready".to_string(),
                },
            ),
        }
    }

    /// SendingInitialized → Ready, now.
    pub fn complete_initialization(&mut self) -> (r: Result<(), ProtocolError>)
        ensures
            old(self).spec_state() is SendingInitialized ==> {
                &&& r is Ok
                &&& final(self).spec_state() matches ConnectionState::Ready { protocol_version, .. }
                &&& final(self).spec_state()->Ready_protocol_version == old(self).spec_state()->SendingInitialized_protocol_version
            },
            !(old(self).spec_state() is SendingInitialized) ==> {
                &&& is_transition_error(r, old(self).spec_state(), "Ready"@)
                &&& final(self).spec_state() == old(self).spec_state()
            },
            final(self).spec_server_name() == old(self).spec_server_name(),
            final(self).spec_adapter() == old(self).spec_adapter(),
    {
        let now = now_nanos();
        self.complete_initialization_at(now)
    }

    /// Marks the connection as failed with `error`, from any state, at `now`.
    pub fn mark_failed_at(&mut self, error: String, now: u64)
        ensures
            final(self).spec_state() == (ConnectionState::Failed { error, failed_at: now }),
            final(self).spec_last_activity() == now,
            final(self).spec_server_name() == old(self).spec_server_name(),
            final(self).spec_adapter() == old(self).spec_adapter(),
    {
        self.state = ConnectionState::Failed { error, failed_at: now };
        self.last_activity = now;
    }

    /// Marks the connection as failed with `error`, from any state, now.
    pub fn mark_failed(&mut self, error: String)
        ensures
            final(self).spec_state() matches ConnectionState::Failed { .. },
            final(self).spec_state()->Failed_error == error,
            final(self).spec_server_name() == old(self).spec_server_name(),
            final(self).spec_adapter() == old(self).spec_adapter(),
    {
        let now = now_nanos();
        self.mark_failed_at(error, now);
    }

    /// Whether the server is ready to handle requests.
    pub fn is_ready(&self) -> (r: bool)
        ensures
            r == (self.spec_state() is Ready),
    {
        match self.state {
            ConnectionState::Ready { .. } => true,
            _ => false,
        }
    }

    /// The negotiated protocol version, known from the initialize response on.
    pub fn protocol_version(&self) -> (r: Option<ProtocolVersion>)
        ensures
            r == state_protocol_version(self.spec_state()),
    {
        match self.state {
            ConnectionState::Ready { protocol_version, .. } => Some(protocol_version),
            ConnectionState::SendingInitialized { protocol_version } => Some(protocol_version),
            _ => None,
        }
    }

    /// Whether a request for `method` may be sent now: initialize only while
    /// connecting, every other request only when ready.
    pub fn can_send_request(&self, method: &str) -> (r: bool)
        ensures
            r == may_send(self.spec_state(), method@),
    {
        if str_eq(method, "initialize") {
            match self.state {
                ConnectionState::Connecting => true,
                _ => false,
            }
        } else {
            match self.state {
                ConnectionState::Ready { .. } => true,
                _ => false,
            }
        }
    }

    /// Sets the protocol adapter of this connection.
    pub fn set_adapter(&mut self, adapter: VersionAdapter)
        ensures
            final(self).spec_adapter() == Some(adapter),
            final(self).spec_state() == old(self).spec_state(),
            final(self).spec_server_name() == old(self).spec_server_name(),
    {
        self.adapter = Some(adapter);
    }

    /// The protocol adapter, once set.
    pub fn get_adapter(&self) -> (r: Option<&VersionAdapter>)
        ensures
            match r {
                Some(a) => self.spec_adapter() == Some(*a),
                None => self.spec_adapter() is None,
            },
    {
        match &self.adapter {
            Some(a) => Some(a),
            None => None,
        }
    }

    /// The server name.
    pub fn server_name(&self) -> (r: &str)
        ensures
            r@ == self.spec_server_name(),
    {
        self.server_name.as_str()
    }
}

} // verus!
