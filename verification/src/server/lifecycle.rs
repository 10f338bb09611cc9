//! The decisions of a managed server's lifecycle.
use vstd::prelude::*;
use crate::proxy::error::ProxyError;
use crate::state::ServerState;
use crate::text::concat;
pub use crate::text::{decimal_string, decimal_text};

verus! {

/// What the restart policy of a managed server asks for.
pub struct RestartPolicy {
    pub restart_on_failure: bool,
    pub max_restarts: u32,
    pub restart_delay_ms: u64,
}

/// What to do about a server that failed.
#[derive(Debug, PartialEq, Eq)]
pub enum FailureAction {
    /// Restarts are off: leave the server as it is.
    Ignore,
    /// Too many restarts: mark the server failed and report this message.
    GiveUp(String),
    /// Wait this many milliseconds, then restart the server.
    RestartAfter(u64),
}

/// What the policy asks for after the server failed with `restart_count`
/// restarts behind it: nothing when restarts are off; giving up once the
/// count reaches the maximum; else a restart after the delay times one more
/// than the count.
pub open spec fn failure_action_spec(policy: RestartPolicy, restart_count: u32) -> (int, Seq<char>, int) {
    if !policy.restart_on_failure {
        (0, Seq::empty(), 0)
    } else if restart_count >= policy.max_restarts {
        (1, "Exceeded maximum restart attempts: "@ + decimal_text(policy.max_restarts as nat), 0)
    } else {
        (2, Seq::empty(), policy.restart_delay_ms * (restart_count + 1))
    }
}

/// The view of a failure action, as in `failure_action_spec`.
pub open spec fn failure_action_view(a: FailureAction) -> (int, Seq<char>, int) {
    match a {
        FailureAction::Ignore => (0, Seq::empty(), 0),
        FailureAction::GiveUp(m) => (1, m@, 0),
        FailureAction::RestartAfter(d) => (2, Seq::empty(), d as int),
    }
}

/// A backend server the proxy runs, as far as its restart policy goes.
pub struct ManagedServer {
    pub name: String,
    pub policy: RestartPolicy,
}

impl ManagedServer {
    /// A managed server with its restart policy.
    pub fn new(name: String, policy: RestartPolicy) -> (r: Self)
        ensures
            r.name == name,
            r.policy == policy,
    {
        ManagedServer { name, policy }
    }

    /// Decides what to do after the server failed with `restart_count`
    /// restarts behind it.
    pub fn handle_failure(&self, restart_count: u32) -> (r: FailureAction)
        requires
            self.policy.restart_on_failure && restart_count < self.policy.max_restarts ==> self.policy.restart_delay_ms
                * (restart_count + 1) <= u64::MAX,
        ensures
            failure_action_view(r) == failure_action_spec(self.policy, restart_count),
    {
        if !self.policy.restart_on_failure {
            return FailureAction::Ignore;
        }
        if restart_count >= self.policy.max_restarts {
            let count = decimal_string(self.policy.max_restarts as u64);
            return FailureAction::GiveUp(concat("Exceeded maximum restart attempts: ", count.as_str()));
        }
        let factor: u64 = restart_count as u64 + 1;
        FailureAction::RestartAfter(self.policy.restart_delay_ms * factor)
    }
}

/// The states a server passes through when started: `Starting`, then
/// `Running` when it joined the connection pool, else `Failed`.
pub fn start_states(joined_pool: bool) -> (r: (ServerState, ServerState))
    ensures
        r.0 == ServerState::Starting,
        r.1 == if joined_pool { ServerState::Running } else { ServerState::Failed },
{
    (ServerState::Starting, if joined_pool { ServerState::Running } else { ServerState::Failed })
}

/// The states a server passes through when stopped: `Stopping`, then `Stopped`.
pub fn stop_states() -> (r: (ServerState, ServerState))
    ensures
        r.0 == ServerState::Stopping,
        r.1 == ServerState::Stopped,
{
    (ServerState::Stopping, ServerState::Stopped)
}

/// What stopping a server on request comes to.
#[derive(Debug, PartialEq, Eq)]
pub enum StopDecision {
    /// The server runs and is configured: stop it.
    Stop,
    /// The server does not run: nothing to do.
    AlreadyStopped,
    /// The server is unknown.
    NotFound(ProxyError),
}

/// The decisions of the server manager.
pub struct ServerManager {}

impl ServerManager {
    /// Decides how to stop the server `name`, given its state (`None` when
    /// the proxy does not know it) and whether the configuration has it.
    pub fn stop_decision(name: &str, state: Option<ServerState>, configured: bool) -> (r: StopDecision)
        ensures
            match state {
                None => r matches StopDecision::NotFound(ProxyError::ServerNotFound(m)) && m@ == name@,
                Some(ServerState::Running) => if configured {
                    r is Stop
                } else {
                    r matches StopDecision::NotFound(ProxyError::ServerNotFound(m)) && m@ == name@
                },
                Some(_) => r is AlreadyStopped,
            },
    {
        match state {
            None => StopDecision::NotFound(ProxyError::ServerNotFound(name.to_string())),
            Some(ServerState::Running) => {
                if configured {
                    StopDecision::Stop
                } else {
                    StopDecision::NotFound(ProxyError::ServerNotFound(name.to_string()))
                }
            },
            Some(_) => StopDecision::AlreadyStopped,
        }
    }

    /// Starting the server `name` needs it in the configuration.
    pub fn start_decision(name: &str, configured: bool) -> (r: Result<(), ProxyError>)
        ensures
            configured ==> r is Ok,
            !configured ==> (r matches Err(ProxyError::ServerNotFound(m)) && m@ == name@),
    {
        if configured {
            Ok(())
        } else {
            Err(ProxyError::ServerNotFound(name.to_string()))
        }
    }
}

} // verus!
