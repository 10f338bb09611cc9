//! The initialize handshake: its messages and the tracker of its timing.
use vstd::prelude::*;
use crate::clock::{elapsed, elapsed_exec, now_nanos};
use crate::json::Json;

verus! {

/// The initialize request a client sends to a server.
#[derive(Debug)]
pub struct InitializeRequest {
    /// Always `2.0`.
    pub jsonrpc: String,
    pub id: Json,
    /// Always `initialize`.
    pub method: String,
    pub params: InitializeParams,
}

/// The parameters of the initialize request.
#[derive(Debug)]
pub struct InitializeParams {
    pub protocol_version: String,
    pub capabilities: ClientCapabilities,
    pub client_info: Implementation,
}

/// What a client can do.
#[derive(Debug)]
pub struct ClientCapabilities {
    pub roots: Option<RootsCapability>,
    pub sampling: Option<Json>,
    pub experimental: Option<Json>,
}

/// The client's roots capability.
#[derive(Debug)]
pub struct RootsCapability {
    pub list_changed: Option<bool>,
}

/// The initialize response a server sends back.
#[derive(Debug)]
pub struct InitializeResponse {
    pub jsonrpc: String,
    pub id: Json,
    pub result: InitializeResult,
}

/// The result of the initialize response.
#[derive(Debug)]
pub struct InitializeResult {
    pub protocol_version: String,
    pub capabilities: ServerCapabilities,
    pub server_info: Implementation,
    pub instructions: Option<String>,
}

/// What a server can do.
#[derive(Debug)]
pub struct ServerCapabilities {
    pub tools: Option<ToolsCapability>,
    pub resources: Option<ResourcesCapability>,
    pub prompts: Option<PromptsCapability>,
    pub logging: Option<Json>,
    pub experimental: Option<Json>,
}

/// The server's tools capability.
#[derive(Debug)]
pub struct ToolsCapability {
    pub list_changed: Option<bool>,
}

/// The server's resources capability.
#[derive(Debug)]
pub struct ResourcesCapability {
    pub subscribe: Option<bool>,
    pub list_changed: Option<bool>,
}

/// The server's prompts capability.
#[derive(Debug)]
pub struct PromptsCapability {
    pub list_changed: Option<bool>,
}

/// The name and version of a client or server.
#[derive(Debug)]
pub struct Implementation {
    pub name: String,
    pub version: String,
}

impl ClientCapabilities {
    /// No capabilities.
    pub fn none() -> (r: Self)
        ensures
            r.roots is None,
            r.sampling is None,
            r.experimental is None,
    {
        ClientCapabilities { roots: None, sampling: None, experimental: None }
    }
}

impl ServerCapabilities {
    /// No capabilities.
    pub fn none() -> (r: Self)
        ensures
            r.tools is None,
            r.resources is None,
            r.prompts is None,
            r.logging is None,
            r.experimental is None,
    {
        ServerCapabilities { tools: None, resources: None, prompts: None, logging: None, experimental: None }
    }
}


/// The `notifications/initialized` notification sent after the initialize
/// response arrives.
pub struct InitializedNotification {
    /// Always "2.0"
    pub jsonrpc: String,
    /// Always "notifications/initialized"
    pub method: String,
}

impl InitializedNotification {
    pub fn new() -> (r: Self)
        ensures
            r.jsonrpc@ == "2.0"@,
            r.method@ == "notifications/initialized"@,
    {
        Self { jsonrpc: "2.0".to_string(), method: "notifications/initialized".to_string() }
    }
}

impl Default for InitializedNotification {
    fn default() -> (r: Self)
        ensures
            r.jsonrpc@ == "2.0"@,
            r.method@ == "notifications/initialized"@,
    {
        Self::new()
    }
}

/// Tracks the timing of the initialization handshake. All times are
/// nanoseconds on the clock of `crate::clock`.
pub struct InitializationHandshakeTracker {
    pub started_at: u64,
    pub initialize_sent_at: Option<u64>,
    pub initialize_received_at: Option<u64>,
    pub initialized_sent_at: Option<u64>,
    pub completed_at: Option<u64>,
    /// How long the handshake may take, in nanoseconds.
    pub timeout: u64,
}

/// The duration of each phase of the handshake, in nanoseconds; a phase whose
/// end or start was not marked has none.
pub struct InitializationPhaseTimings {
    pub send_initialize: Option<u64>,
    pub wait_for_response: Option<u64>,
    pub send_initialized: Option<u64>,
    pub mark_ready: Option<u64>,
}

/// The time between two marks, when both were made.
pub open spec fn between(start: Option<u64>, end: Option<u64>) -> Option<u64> {
    match (start, end) {
        (Some(s), Some(e)) => Some(elapsed(s, e)),
        _ => None,
    }
}

fn between_exec(start: Option<u64>, end: Option<u64>) -> (r: Option<u64>)
    ensures
        r == between(start, end),
{
    match (start, end) {
        (Some(s), Some(e)) => Some(elapsed_exec(s, e)),
        _ => None,
    }
}

impl InitializationHandshakeTracker {
    /// A tracker started now.
    pub fn new(timeout: u64) -> (r: Self)
        ensures
            r.timeout == timeout,
            r.initialize_sent_at is None,
            r.initialize_received_at is None,
            r.initialized_sent_at is None,
            r.completed_at is None,
    {
        let now = now_nanos();
        Self::started_at(timeout, now)
    }

    /// A tracker started at `now`.
    pub fn started_at(timeout: u64, now: u64) -> (r: Self)
        ensures
            r.started_at == now,
            r.timeout == timeout,
            r.initialize_sent_at is None,
            r.initialize_received_at is None,
            r.initialized_sent_at is None,
            r.completed_at is None,
    {
        Self {
            started_at: now,
            initialize_sent_at: None,
            initialize_received_at: None,
            initialized_sent_at: None,
            completed_at: None,
            timeout,
        }
    }

    /// Marks the initialize request as sent at `now`.
    pub fn mark_initialize_sent_at(&mut self, now: u64)
        ensures
            *final(self) == (Self { initialize_sent_at: Some(now), ..*old(self) }),
    {
        self.initialize_sent_at = Some(now);
    }

    /// Marks the initialize response as received at `now`.
    pub fn mark_initialize_received_at(&mut self, now: u64)
        ensures
            *final(self) == (Self { initialize_received_at: Some(now), ..*old(self) }),
    {
        self.initialize_received_at = Some(now);
    }

    /// Marks the initialized notification as sent at `now`.
    pub fn mark_initialized_sent_at(&mut self, now: u64)
        ensures
            *final(self) == (Self { initialized_sent_at: Some(now), ..*old(self) }),
    {
        self.initialized_sent_at = Some(now);
    }

    /// Marks the handshake as completed at `now`.
    pub fn mark_completed_at(&mut self, now: u64)
        ensures
            *final(self) == (Self { completed_at: Some(now), ..*old(self) }),
    {
        self.completed_at = Some(now);
    }

    /// Marks the initialize request as sent now.
    pub fn mark_initialize_sent(&mut self)
        ensures
            final(self).initialize_sent_at is Some,
            *final(self) == (Self {
                initialize_sent_at: final(self).initialize_sent_at,
                ..*old(self)
            }),
    {
        let now = now_nanos();
        self.mark_initialize_sent_at(now);
    }

    /// Marks the initialize response as received now.
    pub fn mark_initialize_received(&mut self)
        ensures
            final(self).initialize_received_at is Some,
            *final(self) == (Self {
                initialize_received_at: final(self).initialize_received_at,
                ..*old(self)
            }),
    {
        let now = now_nanos();
        self.mark_initialize_received_at(now);
    }

    /// Marks the initialized notification as sent now.
    pub fn mark_initialized_sent(&mut self)
        ensures
            final(self).initialized_sent_at is Some,
            *final(self) == (Self {
                initialized_sent_at: final(self).initialized_sent_at,
                ..*old(self)
            }),
    {
        let now = now_nanos();
        self.mark_initialized_sent_at(now);
    }

    /// Marks the handshake as completed now.
    pub fn mark_completed(&mut self)
        ensures
            final(self).completed_at is Some,
            *final(self) == (Self { completed_at: final(self).completed_at, ..*old(self) }),
    {
        let now = now_nanos();
        self.mark_completed_at(now);
    }

    /// Whether, at `now`, more than the timeout has passed since the start.
    pub fn is_timed_out_at(&self, now: u64) -> (r: bool)
        ensures
            r == (elapsed(self.started_at, now) > self.timeout),
    {
        elapsed_exec(self.started_at, now) > self.timeout
    }

    /// Whether more than the timeout has passed since the start, at the
    /// time the clock reads when called.
    pub fn is_timed_out(&self) -> (r: bool)
        ensures
            exists|now: u64| r == (elapsed(self.started_at, now) > self.timeout),
    {
        let now = now_nanos();
        let r = self.is_timed_out_at(now);
        assert(r == (elapsed(self.started_at, now) > self.timeout));
        r
    }

    /// The time from the start to completion, once completed.
    pub fn total_duration(&self) -> (r: Option<u64>)
        ensures
            r == between(Some(self.started_at), self.completed_at),
    {
        between_exec(Some(self.started_at), self.completed_at)
    }

    /// The duration of each phase: start to initialize sent, initialize sent
    /// to response received, response received to initialized sent, and
    /// initialized sent to completion.
    pub fn phase_durations(&self) -> (r: InitializationPhaseTimings)
        ensures
            r.send_initialize == between(Some(self.started_at), self.initialize_sent_at),
            r.wait_for_response == between(self.initialize_sent_at, self.initialize_received_at),
            r.send_initialized == between(self.initialize_received_at, self.initialized_sent_at),
            r.mark_ready == between(self.initialized_sent_at, self.completed_at),
    {
        InitializationPhaseTimings {
            send_initialize: between_exec(Some(self.started_at), self.initialize_sent_at),
            wait_for_response: between_exec(self.initialize_sent_at, self.initialize_received_at),
            send_initialized: between_exec(self.initialize_received_at, self.initialized_sent_at),
            mark_ready: between_exec(self.initialized_sent_at, self.completed_at),
        }
    }
}

/// When every phase was marked, in order, the phases add up to the total
/// duration of the handshake.
pub proof fn lemma_phases_sum_to_total(t: InitializationHandshakeTracker)
    requires
        t.initialize_sent_at is Some,
        t.initialize_received_at is Some,
        t.initialized_sent_at is Some,
        t.completed_at is Some,
        t.started_at <= t.initialize_sent_at->0,
        t.initialize_sent_at->0 <= t.initialize_received_at->0,
        t.initialize_received_at->0 <= t.initialized_sent_at->0,
        t.initialized_sent_at->0 <= t.completed_at->0,
    ensures
        between(Some(t.started_at), t.initialize_sent_at)->0 + between(
            t.initialize_sent_at,
            t.initialize_received_at,
        )->0 + between(t.initialize_received_at, t.initialized_sent_at)->0 + between(
            t.initialized_sent_at,
            t.completed_at,
        )->0 == between(Some(t.started_at), t.completed_at)->0,
{
}

} // verus!
