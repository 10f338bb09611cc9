//! The proxy's metrics: which ones it keeps, and how each event moves them.
use vstd::prelude::*;
use crate::state::ServerState;

verus! {

/// The kind of a metric.
#[derive(Debug, Clone, Copy, PartialEq, Eq, Structural)]
pub enum MetricKind {
    /// A value that goes up and down.
    Gauge,
    /// A count that only goes up.
    Counter,
    /// A distribution of durations, in seconds.
    Histogram,
}

/// A metric the proxy registers: its name, its help text and its kind.
#[derive(Debug, PartialEq, Eq)]
pub struct MetricSpec {
    pub name: &'static str,
    pub help: &'static str,
    pub kind: MetricKind,
}

/// The metrics the proxy registers, in order: name, help text, kind.
pub open spec fn metric_table() -> Seq<(Seq<char>, Seq<char>, MetricKind)> {
    seq![
        ("mcp_proxy_total_servers"@, "Total number of configured servers"@, MetricKind::Gauge),
        ("mcp_proxy_running_servers"@, "Number of currently running servers"@, MetricKind::Gauge),
        ("mcp_proxy_failed_servers"@, "Number of failed servers"@, MetricKind::Gauge),
        ("mcp_proxy_requests_total"@, "Total number of proxy requests"@, MetricKind::Counter),
        ("mcp_proxy_requests_failed"@, "Total number of failed proxy requests"@, MetricKind::Counter),
        ("mcp_proxy_request_duration_seconds"@, "Request duration in seconds"@, MetricKind::Histogram),
        ("mcp_proxy_active_connections"@, "Number of active connections"@, MetricKind::Gauge),
        ("mcp_proxy_connection_errors_total"@, "Total number of connection errors"@, MetricKind::Counter),
        ("mcp_proxy_health_checks_total"@, "Total number of health checks"@, MetricKind::Counter),
        ("mcp_proxy_health_checks_failed"@, "Total number of failed health checks"@, MetricKind::Counter),
        ("mcp_proxy_server_restarts_total"@, "Total number of server restarts"@, MetricKind::Counter),
    ]
}

fn spec_entry(name: &'static str, help: &'static str, kind: MetricKind) -> (r: MetricSpec)
    ensures
        r.name@ == name@,
        r.help@ == help@,
        r.kind == kind,
{
    MetricSpec { name, help, kind }
}

/// The metrics the proxy registers, in order.
pub fn metric_specs() -> (r: Vec<MetricSpec>)
    ensures
        r@.len() == metric_table().len(),
        forall|i: int|
            0 <= i < r@.len() ==> (#[trigger] r@[i].name@, r@[i].help@, r@[i].kind) == metric_table()[i],
{
    vec![
        spec_entry("mcp_proxy_total_servers", "Total number of configured servers", MetricKind::Gauge),
        spec_entry("mcp_proxy_running_servers", "Number of currently running servers", MetricKind::Gauge),
        spec_entry("mcp_proxy_failed_servers", "Number of failed servers", MetricKind::Gauge),
        spec_entry("mcp_proxy_requests_total", "Total number of proxy requests", MetricKind::Counter),
        spec_entry("mcp_proxy_requests_failed", "Total number of failed proxy requests", MetricKind::Counter),
        spec_entry("mcp_proxy_request_duration_seconds", "Request duration in seconds", MetricKind::Histogram),
        spec_entry("mcp_proxy_active_connections", "Number of active connections", MetricKind::Gauge),
        spec_entry("mcp_proxy_connection_errors_total", "Total number of connection errors", MetricKind::Counter),
        spec_entry("mcp_proxy_health_checks_total", "Total number of health checks", MetricKind::Counter),
        spec_entry("mcp_proxy_health_checks_failed", "Total number of failed health checks", MetricKind::Counter),
        spec_entry("mcp_proxy_server_restarts_total", "Total number of server restarts", MetricKind::Counter),
    ]
}

/// The values of the proxy's gauges and counters. Gauges and counters wrap
/// around at the ends of their ranges, as the atomics behind them do.
#[derive(Debug, Clone, Copy, PartialEq, Eq, Structural)]
pub struct MetricCounts {
    pub total_servers: i64,
    pub running_servers: i64,
    pub failed_servers: i64,
    pub total_requests: u64,
    pub failed_requests: u64,
    pub active_connections: i64,
    pub connection_errors: u64,
    pub health_checks_total: u64,
    pub health_checks_failed: u64,
    pub server_restarts: u64,
}

/// One more, wrapping.
pub open spec fn up_i(x: i64) -> i64 {
    if x == i64::MAX { i64::MIN } else { (x + 1) as i64 }
}

/// One less, wrapping.
pub open spec fn down_i(x: i64) -> i64 {
    if x == i64::MIN { i64::MAX } else { (x - 1) as i64 }
}

/// One more, wrapping.
pub open spec fn up_u(x: u64) -> u64 {
    if x == u64::MAX { 0 } else { (x + 1) as u64 }
}

impl MetricCounts {
    /// All metrics at zero.
    pub fn new() -> (r: Self)
        ensures
            r == (MetricCounts {
                total_servers: 0,
                running_servers: 0,
                failed_servers: 0,
                total_requests: 0,
                failed_requests: 0,
                active_connections: 0,
                connection_errors: 0,
                health_checks_total: 0,
                health_checks_failed: 0,
                server_restarts: 0,
            }),
    {
        MetricCounts {
            total_servers: 0,
            running_servers: 0,
            failed_servers: 0,
            total_requests: 0,
            failed_requests: 0,
            active_connections: 0,
            connection_errors: 0,
            health_checks_total: 0,
            health_checks_failed: 0,
            server_restarts: 0,
        }
    }

    /// A server was registered.
    pub fn increment_server_count(&mut self)
        ensures
            *final(self) == (MetricCounts { total_servers: up_i(old(self).total_servers), ..*old(self) }),
    {
        self.total_servers = self.total_servers.wrapping_add(1);
    }

    /// A server was registered in `state`: it is counted, and counted as
    /// running or failed when it is in that state.
    pub fn on_register(&mut self, state: ServerState)
        ensures
            *final(self) == on_state_change_spec(
                MetricCounts { total_servers: up_i(old(self).total_servers), ..*old(self) },
                state,
            ),
    {
        self.increment_server_count();
        self.on_state_change(state);
    }

    /// A server was restarted.
    pub fn record_restart(&mut self)
        ensures
            *final(self) == (MetricCounts { server_restarts: up_u(old(self).server_restarts), ..*old(self) }),
    {
        self.server_restarts = self.server_restarts.wrapping_add(1);
    }

    /// The value of each metric, in the order of `metric_table`.
    pub fn values(&self) -> (r: Vec<MetricValue>)
        ensures
            r@ == metric_values(*self),
    {
        vec![
            MetricValue::Gauge(self.total_servers),
            MetricValue::Gauge(self.running_servers),
            MetricValue::Gauge(self.failed_servers),
            MetricValue::Count(self.total_requests),
            MetricValue::Count(self.failed_requests),
            MetricValue::Durations,
            MetricValue::Gauge(self.active_connections),
            MetricValue::Count(self.connection_errors),
            MetricValue::Count(self.health_checks_total),
            MetricValue::Count(self.health_checks_failed),
            MetricValue::Count(self.server_restarts),
        ]
    }

    /// A server was unregistered.
    pub fn decrement_server_count(&mut self)
        ensures
            *final(self) == (MetricCounts { total_servers: down_i(old(self).total_servers), ..*old(self) }),
    {
        self.total_servers = self.total_servers.wrapping_sub(1);
    }

    /// A server started running.
    pub fn increment_running_servers(&mut self)
        ensures
            *final(self) == (MetricCounts { running_servers: up_i(old(self).running_servers), ..*old(self) }),
    {
        self.running_servers = self.running_servers.wrapping_add(1);
    }

    /// A server stopped running.
    pub fn decrement_running_servers(&mut self)
        ensures
            *final(self) == (MetricCounts { running_servers: down_i(old(self).running_servers), ..*old(self) }),
    {
        self.running_servers = self.running_servers.wrapping_sub(1);
    }

    /// A server failed.
    pub fn increment_failed_servers(&mut self)
        ensures
            *final(self) == (MetricCounts { failed_servers: up_i(old(self).failed_servers), ..*old(self) }),
    {
        self.failed_servers = self.failed_servers.wrapping_add(1);
    }

    /// A request arrived.
    pub fn record_request(&mut self)
        ensures
            *final(self) == (MetricCounts { total_requests: up_u(old(self).total_requests), ..*old(self) }),
    {
        self.total_requests = self.total_requests.wrapping_add(1);
    }

    /// A request failed.
    pub fn record_failed_request(&mut self)
        ensures
            *final(self) == (MetricCounts { failed_requests: up_u(old(self).failed_requests), ..*old(self) }),
    {
        self.failed_requests = self.failed_requests.wrapping_add(1);
    }

    /// A connection opened.
    pub fn increment_active_connections(&mut self)
        ensures
            *final(self) == (MetricCounts { active_connections: up_i(old(self).active_connections), ..*old(self) }),
    {
        self.active_connections = self.active_connections.wrapping_add(1);
    }

    /// A connection closed.
    pub fn decrement_active_connections(&mut self)
        ensures
            *final(self) == (MetricCounts {
                active_connections: down_i(old(self).active_connections),
                ..*old(self)
            }),
    {
        self.active_connections = self.active_connections.wrapping_sub(1);
    }

    /// A connection failed.
    pub fn record_connection_error(&mut self)
        ensures
            *final(self) == (MetricCounts { connection_errors: up_u(old(self).connection_errors), ..*old(self) }),
    {
        self.connection_errors = self.connection_errors.wrapping_add(1);
    }

    /// A health check ran: it counts, and so does its failure.
    pub fn record_health_check(&mut self, success: bool)
        ensures
            *final(self) == (MetricCounts {
                health_checks_total: up_u(old(self).health_checks_total),
                health_checks_failed: if success {
                    old(self).health_checks_failed
                } else {
                    up_u(old(self).health_checks_failed)
                },
                ..*old(self)
            }),
    {
        self.health_checks_total = self.health_checks_total.wrapping_add(1);
        if !success {
            self.health_checks_failed = self.health_checks_failed.wrapping_add(1);
        }
    }

    /// A server was set to `state`: running and failed servers are counted.
    pub fn on_state_change(&mut self, state: ServerState)
        ensures
            state == ServerState::Running ==> *final(self) == (MetricCounts {
                running_servers: up_i(old(self).running_servers),
                ..*old(self)
            }),
            state == ServerState::Failed ==> *final(self) == (MetricCounts {
                failed_servers: up_i(old(self).failed_servers),
                ..*old(self)
            }),
            state != ServerState::Running && state != ServerState::Failed ==> *final(self) == *old(self),
    {
        match state {
            ServerState::Running => self.increment_running_servers(),
            ServerState::Failed => self.increment_failed_servers(),
            _ => {},
        }
    }
}

/// The counts after a server was set to `state`.
pub open spec fn on_state_change_spec(m: MetricCounts, state: ServerState) -> MetricCounts {
    match state {
        ServerState::Running => MetricCounts { running_servers: up_i(m.running_servers), ..m },
        ServerState::Failed => MetricCounts { failed_servers: up_i(m.failed_servers), ..m },
        _ => m,
    }
}

/// The current value of a metric: a gauge's value, a counter's count, or
/// the durations a histogram collects (which the counts do not hold).
#[derive(Debug, Clone, Copy, PartialEq, Eq, Structural)]
pub enum MetricValue {
    Gauge(i64),
    Count(u64),
    Durations,
}

/// The value of each metric of `metric_table`, in order.
pub open spec fn metric_values(m: MetricCounts) -> Seq<MetricValue> {
    seq![
        MetricValue::Gauge(m.total_servers),
        MetricValue::Gauge(m.running_servers),
        MetricValue::Gauge(m.failed_servers),
        MetricValue::Count(m.total_requests),
        MetricValue::Count(m.failed_requests),
        MetricValue::Durations,
        MetricValue::Gauge(m.active_connections),
        MetricValue::Count(m.connection_errors),
        MetricValue::Count(m.health_checks_total),
        MetricValue::Count(m.health_checks_failed),
        MetricValue::Count(m.server_restarts),
    ]
}

/// Times one request: counted when it starts; when it ends its duration is
/// recorded, and a failure is counted.
pub struct RequestTimer {
    pub start: u64,
}

impl RequestTimer {
    /// Starts timing a request at `now` (in nanoseconds) and counts it.
    pub fn new(metrics: &mut MetricCounts, now: u64) -> (r: Self)
        ensures
            r.start == now,
            *final(metrics) == (MetricCounts { total_requests: up_u(old(metrics).total_requests), ..*old(metrics) }),
    {
        metrics.record_request();
        RequestTimer { start: now }
    }

    /// The request succeeded at `now`: its duration, in nanoseconds.
    pub fn finish(self, now: u64) -> (r: u64)
        ensures
            r == crate::clock::elapsed(self.start, now),
    {
        crate::clock::elapsed_exec(self.start, now)
    }

    /// The request failed at `now`: the failure is counted, and its
    /// duration is given, in nanoseconds.
    pub fn fail(self, metrics: &mut MetricCounts, now: u64) -> (r: u64)
        ensures
            r == crate::clock::elapsed(self.start, now),
            *final(metrics) == (MetricCounts { failed_requests: up_u(old(metrics).failed_requests), ..*old(metrics) }),
    {
        metrics.record_failed_request();
        crate::clock::elapsed_exec(self.start, now)
    }
}

} // verus!
