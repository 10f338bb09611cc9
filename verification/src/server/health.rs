//! Health checks of a backend server: the ping it is sent, how its answer is
//! judged, the retries of one round, and when a server counts as unhealthy.
use vstd::prelude::*;
use crate::protocol::message::{IdView, JsonRpcId, JsonRpcMessage, MessageView, create_ping_request};
use crate::state::ServerState;
use crate::text::concat;

verus! {

/// Why a health check failed.
#[derive(Debug, Clone, Copy, PartialEq, Eq, Structural)]
pub enum HealthError {
    /// The server could not be reached, or answered the ping with an error.
    Unhealthy,
    /// The server's answer was not a response to the ping.
    InvalidResponse,
}

impl HealthError {
    /// The text of the error.
    pub open spec fn text(self) -> Seq<char> {
        match self {
            HealthError::Unhealthy => "server is unhealthy"@,
            HealthError::InvalidResponse => "invalid response"@,
        }
    }

    /// The text of the error.
    pub fn message(&self) -> (r: &'static str)
        ensures
            r@ == self.text(),
    {
        match self {
            HealthError::Unhealthy => "server is unhealthy",
            HealthError::InvalidResponse => "invalid response",
        }
    }
}

/// How the answer to the ping with id `request_id` is judged: a response
/// with that id is healthy unless it carries an error; anything else
/// (another id, another kind of message, or no message at all) is invalid.
pub open spec fn ping_verdict(answer: Option<MessageView>, request_id: i64) -> Result<(), HealthError> {
    match answer {
        Some(MessageView::Response { id: IdView::Number(n), error, .. }) => if n == request_id {
            if error is Some {
                Err(HealthError::Unhealthy)
            } else {
                Ok(())
            }
        } else {
            Err(HealthError::InvalidResponse)
        },
        _ => Err(HealthError::InvalidResponse),
    }
}

/// The view of an optional message.
pub open spec fn opt_message_view(m: Option<JsonRpcMessage>) -> Option<MessageView> {
    match m {
        Some(x) => Some(x@),
        None => None,
    }
}

/// Judges the answer to the ping with id `request_id` (`None` when the
/// answer could not be read as a message).
pub fn check_ping_response(answer: &Option<JsonRpcMessage>, request_id: i64) -> (r: Result<(), HealthError>)
    ensures
        r == ping_verdict(opt_message_view(*answer), request_id),
{
    match answer {
        Some(JsonRpcMessage::V2(crate::protocol::message::JsonRpcV2Message::Response(resp))) => {
            match &resp.id {
                JsonRpcId::Number(n) => {
                    if *n == request_id {
                        if resp.error.is_some() {
                            Err(HealthError::Unhealthy)
                        } else {
                            Ok(())
                        }
                    } else {
                        Err(HealthError::InvalidResponse)
                    }
                },
                _ => Err(HealthError::InvalidResponse),
            }
        },
        _ => Err(HealthError::InvalidResponse),
    }
}

/// How one attempt of a health check ended.
#[derive(Debug, PartialEq, Eq)]
pub enum AttemptOutcome {
    /// The server answered the ping well, after this many milliseconds.
    Passed(u64),
    /// The check failed.
    Failed(HealthError),
    /// The check did not end in time.
    TimedOut,
}

/// One round of a health check: up to `max_attempts` attempts, stopping at
/// the first that passes.
pub struct HealthRound {
    pub attempt: u32,
    pub max_attempts: u32,
    pub passed: bool,
    pub last_error: Option<String>,
    pub response_time_ms: Option<u64>,
}

impl HealthRound {
    /// A round with no attempt made yet.
    pub fn new(max_attempts: u32) -> (r: Self)
        ensures
            r.attempt == 0,
            r.max_attempts == max_attempts,
            !r.passed,
            r.last_error is None,
            r.response_time_ms is None,
    {
        HealthRound { attempt: 0, max_attempts, passed: false, last_error: None, response_time_ms: None }
    }

    /// Whether another attempt is due.
    pub fn should_try(&self) -> (r: bool)
        ensures
            r == (!self.passed && self.attempt < self.max_attempts),
    {
        !self.passed && self.attempt < self.max_attempts
    }

    /// Whether the next attempt waits for the retry interval first (every
    /// attempt but the first does).
    pub fn waits_before_next(&self) -> (r: bool)
        ensures
            r == (self.attempt > 0),
    {
        self.attempt > 0
    }

    /// Records how an attempt ended.
    pub fn record(&mut self, outcome: AttemptOutcome)
        requires
            !old(self).passed,
            old(self).attempt < old(self).max_attempts,
        ensures
            final(self).max_attempts == old(self).max_attempts,
            match outcome {
                AttemptOutcome::Passed(ms) => final(self).passed && final(self).response_time_ms == Some(ms)
                    && final(self).attempt == old(self).attempt && final(self).last_error == old(self).last_error,
                AttemptOutcome::Failed(e) => !final(self).passed && final(self).attempt == old(self).attempt + 1
                    && (final(self).last_error matches Some(m) && m@ == "Health check failed: "@ + e.text())
                    && final(self).response_time_ms == old(self).response_time_ms,
                AttemptOutcome::TimedOut => !final(self).passed && final(self).attempt == old(self).attempt + 1
                    && (final(self).last_error matches Some(m) && m@ == "Health check timed out"@)
                    && final(self).response_time_ms == old(self).response_time_ms,
            },
    {
        match outcome {
            AttemptOutcome::Passed(ms) => {
                self.passed = true;
                self.response_time_ms = Some(ms);
            },
            AttemptOutcome::Failed(e) => {
                self.last_error = Some(concat("Health check failed: ", e.message()));
                self.attempt = self.attempt + 1;
            },
            AttemptOutcome::TimedOut => {
                self.last_error = Some("Health check timed out".to_string());
                self.attempt = self.attempt + 1;
            },
        }
    }

    /// The round's result: whether it passed, how long the passing attempt
    /// took, and (when it failed) the last error.
    pub fn status(self) -> (r: (bool, Option<u64>, Option<String>))
        ensures
            r.0 == self.passed,
            r.1 == self.response_time_ms,
            r.2 == if self.passed { None } else { self.last_error },
    {
        if self.passed {
            (true, self.response_time_ms, None)
        } else {
            (false, self.response_time_ms, self.last_error)
        }
    }
}

/// The health checker of one server: the ids of its pings, its run of
/// failed rounds, and how many failed rounds in a row make the server
/// unhealthy.
pub struct HealthChecker {
    server_name: String,
    request_id_counter: i64,
    consecutive_failures: u32,
    threshold: u32,
}

/// The id after `id`: one more, wrapping around as the atomic counter does.
pub open spec fn next_id(id: i64) -> i64 {
    if id == i64::MAX { i64::MIN } else { (id + 1) as i64 }
}

impl HealthChecker {
    /// The id the next ping carries.
    pub closed spec fn spec_next_id(&self) -> i64 {
        self.request_id_counter
    }

    /// The number of failed rounds since the last one that passed.
    pub closed spec fn spec_failures(&self) -> u32 {
        self.consecutive_failures
    }

    /// How many failed rounds in a row make the server unhealthy (at least one).
    pub closed spec fn spec_threshold(&self) -> u32 {
        self.threshold
    }

    /// The server this checker watches.
    pub closed spec fn spec_server_name(&self) -> Seq<char> {
        self.server_name@
    }

    /// The server this checker watches.
    pub fn server_name(&self) -> (r: &str)
        ensures
            r@ == self.spec_server_name(),
    {
        self.server_name.as_str()
    }

    /// A checker for `server_name` that reports the server unhealthy after
    /// `threshold` failed rounds in a row (a threshold of 0 counts as 1, so
    /// the first failed round does); its first ping has id 0.
    pub fn new(server_name: String, threshold: u32) -> (r: Self)
        ensures
            r.spec_server_name() == server_name@,
            r.spec_next_id() == 0,
            r.spec_failures() == 0,
            r.spec_threshold() == effective_threshold(threshold),
    {
        let t = if threshold == 0 { 1 } else { threshold };
        HealthChecker { server_name, request_id_counter: 0, consecutive_failures: 0, threshold: t }
    }

    /// The next ping and its id; each ping gets the id after the last.
    pub fn next_ping(&mut self) -> (r: (i64, JsonRpcMessage))
        ensures
            r.0 == old(self).spec_next_id(),
            r.1@ == (MessageView::Request {
                id: IdView::Number(r.0),
                method: "ping"@,
                params: Some(crate::json::JsonView::Object(Seq::empty())),
            }),
            final(self).spec_next_id() == next_id(old(self).spec_next_id()),
            final(self).spec_failures() == old(self).spec_failures(),
            final(self).spec_server_name() == old(self).spec_server_name(),
            final(self).spec_threshold() == old(self).spec_threshold(),
    {
        let id = self.request_id_counter;
        self.request_id_counter = id.wrapping_add(1);
        (id, create_ping_request(JsonRpcId::Number(id)))
    }

    /// Records whether a round passed, and says whether the server is now
    /// unhealthy: that is, whether at least the threshold of rounds in a row
    /// have failed.
    pub fn record_round(&mut self, passed: bool) -> (r: bool)
        ensures
            final(self).spec_failures() == failures_after(old(self).spec_failures(), passed),
            r == (final(self).spec_failures() >= old(self).spec_threshold()),
            final(self).spec_next_id() == old(self).spec_next_id(),
            final(self).spec_server_name() == old(self).spec_server_name(),
            final(self).spec_threshold() == old(self).spec_threshold(),
    {
        if passed {
            self.consecutive_failures = 0;
        } else {
            self.consecutive_failures = self.consecutive_failures.saturating_add(1);
        }
        self.consecutive_failures >= self.threshold
    }
}

/// The state an unhealthy server is moved to: a running server is marked
/// failed; a server in any other state (or unknown) is left alone.
pub fn unhealthy_transition(state: Option<ServerState>) -> (r: Option<ServerState>)
    ensures
        state == Some(ServerState::Running) ==> r == Some(ServerState::Failed),
        state != Some(ServerState::Running) ==> r is None,
{
    match state {
        Some(ServerState::Running) => Some(ServerState::Failed),
        _ => None,
    }
}

/// The count of failed rounds in a row after a round that passed or not
/// (the count stops at its largest value).
pub open spec fn failures_after(failures: u32, passed: bool) -> u32 {
    if passed {
        0
    } else if failures == u32::MAX {
        u32::MAX
    } else {
        (failures + 1) as u32
    }
}

/// The threshold a checker keeps for a requested one: at least one.
pub open spec fn effective_threshold(threshold: u32) -> u32 {
    if threshold == 0 { 1 } else { threshold }
}

/// The count of failed rounds in a row after `n` more failed rounds.
pub open spec fn after_failed_rounds(failures: u32, n: nat) -> u32
    decreases n,
{
    if n == 0 {
        failures
    } else {
        failures_after(after_failed_rounds(failures, (n - 1) as nat), false)
    }
}

/// Whatever came before, as many failed rounds in a row as the threshold
/// make a server unhealthy; a passing round clears the count, so the
/// server is healthy right after it, and one failed round after it makes
/// the server unhealthy exactly when the threshold is one.
pub proof fn lemma_threshold_failures_make_unhealthy(failures: u32, threshold: u32)
    ensures
        after_failed_rounds(failures, effective_threshold(threshold) as nat) >= effective_threshold(threshold),
        failures_after(failures, true) < effective_threshold(threshold),
        (failures_after(failures_after(failures, true), false) >= effective_threshold(threshold))
            == (effective_threshold(threshold) == 1),
{
    lemma_failed_rounds_count(failures, effective_threshold(threshold) as nat);
}

/// After `n` failed rounds the count is at least `n` (as far as it can count).
proof fn lemma_failed_rounds_count(failures: u32, n: nat)
    requires
        n <= u32::MAX,
    ensures
        after_failed_rounds(failures, n) >= n,
    decreases n,
{
    if n > 0 {
        lemma_failed_rounds_count(failures, (n - 1) as nat);
    }
}

} // verus!
