//! The documents behind the proxy's resources that report its state: the
//! sanitized configuration, the metrics, the servers' health and topology,
//! and one server's configuration. The caller gathers the values; these
//! functions give them their shape.
use vstd::prelude::*;
use crate::json::{
    Json, JsonView, count_json, count_view, int_json, int_view, kv,
    lemma_entries_view_ext, lemma_items_view_ext,
};
use crate::proxy::error::ProxyError;
use crate::proxy::resources::{health_counts, health_summary};
use crate::state::{MetricCounts, ServerState};
use crate::transport::TransportType;
use crate::web::api::{state_name, state_name_exec};

verus! {

/// What the health and topology resources report of one server.
#[derive(Debug)]
pub struct ServerReport {
    pub name: String,
    pub state: ServerState,
    /// Whether the configuration enables the server.
    pub enabled: bool,
    pub restart_count: u32,
}

/// One server in the health document.
pub open spec fn health_entry_view(r: ServerReport) -> JsonView {
    JsonView::Object(
        seq![
            ("name"@, JsonView::Str(r.name@)),
            ("state"@, JsonView::Str(state_name(r.state))),
            ("enabled"@, JsonView::Bool(r.enabled)),
            ("restartCount"@, count_view(r.restart_count as nat)),
        ],
    )
}

fn health_entry(r: &ServerReport) -> (j: Json)
    ensures
        j@ == health_entry_view(*r),
{
    let e = vec![
        kv("name", Json::string(r.name.as_str())),
        kv("state", Json::string(state_name_exec(r.state))),
        kv("enabled", Json::Bool(r.enabled)),
        kv("restartCount", count_json(r.restart_count as u64)),
    ];
    proof {
        lemma_entries_view_ext(e@, health_entry_view(*r)->Object_0);
    }
    Json::Object(e)
}

/// The states of the reported servers, in order.
pub open spec fn states_of(servers: Seq<ServerReport>) -> Seq<ServerState> {
    servers.map_values(|r: ServerReport| r.state)
}

/// The health document: how many servers are running, failed and stopped
/// and how many there are, then each server.
pub open spec fn health_view(servers: Seq<ServerReport>) -> JsonView {
    let c = health_counts(states_of(servers));
    JsonView::Object(
        seq![
            (
                "summary"@,
                JsonView::Object(
                    seq![
                        ("healthy"@, count_view(c.0)),
                        ("failed"@, count_view(c.1)),
                        ("stopped"@, count_view(c.2)),
                        ("total"@, count_view(c.3)),
                    ],
                ),
            ),
            ("servers"@, JsonView::Array(servers.map_values(|r: ServerReport| health_entry_view(r)))),
        ],
    )
}

/// The health document of the given servers.
pub fn health_document(servers: &Vec<ServerReport>) -> (r: Json)
    ensures
        r@ == health_view(servers@),
{
    let n = servers.len();
    let mut items: Vec<Json> = Vec::new();
    let mut states: Vec<ServerState> = Vec::new();
    let mut i: usize = 0;
    while i < n
        invariant
            n == servers@.len(),
            i <= n,
            items@.len() == i,
            forall|j: int| 0 <= j < i ==> #[trigger] items@[j]@ == health_entry_view(servers@[j]),
            states@ == states_of(servers@.subrange(0, i as int)),
        decreases n - i,
    {
        items.push(health_entry(&servers[i]));
        states.push(servers[i].state);
        proof {
            assert(states@ =~= states_of(servers@.subrange(0, i + 1)));
        }
        i = i + 1;
    }
    let ghost listed = servers@.map_values(|r: ServerReport| health_entry_view(r));
    proof {
        assert(servers@.subrange(0, n as int) =~= servers@);
        assert forall|j: int| 0 <= j < items@.len() implies crate::json::json_view(#[trigger] items@[j])
            == listed[j] by {
            assert(items@[j]@ == health_entry_view(servers@[j]));
        }
        lemma_items_view_ext(items@, listed);
    }
    let (h, f, s, t) = health_summary(&states);
    let summary = vec![
        kv("healthy", count_json(h as u64)),
        kv("failed", count_json(f as u64)),
        kv("stopped", count_json(s as u64)),
        kv("total", count_json(t as u64)),
    ];
    proof {
        lemma_entries_view_ext(summary@, health_view(servers@)->Object_0[0].1->Object_0);
    }
    let e = vec![kv("summary", Json::Object(summary)), kv("servers", Json::Array(items))];
    proof {
        lemma_entries_view_ext(e@, health_view(servers@)->Object_0);
    }
    Json::Object(e)
}

/// One server in the topology document. Tool counts and capabilities are
/// not tracked, so they read as none.
pub open spec fn topology_entry_view(r: ServerReport) -> JsonView {
    JsonView::Object(
        seq![
            ("name"@, JsonView::Str(r.name@)),
            ("enabled"@, JsonView::Bool(r.enabled)),
            ("state"@, JsonView::Str(state_name(r.state))),
            ("toolsCount"@, count_view(0)),
            ("hasResources"@, JsonView::Bool(false)),
            ("hasPrompts"@, JsonView::Bool(false)),
        ],
    )
}

fn topology_entry(r: &ServerReport) -> (j: Json)
    ensures
        j@ == topology_entry_view(*r),
{
    let e = vec![
        kv("name", Json::string(r.name.as_str())),
        kv("enabled", Json::Bool(r.enabled)),
        kv("state", Json::string(state_name_exec(r.state))),
        kv("toolsCount", count_json(0)),
        kv("hasResources", Json::Bool(false)),
        kv("hasPrompts", Json::Bool(false)),
    ];
    proof {
        lemma_entries_view_ext(e@, topology_entry_view(*r)->Object_0);
    }
    Json::Object(e)
}

/// The topology document: each server, then how many there are.
pub open spec fn topology_view(servers: Seq<ServerReport>) -> JsonView {
    JsonView::Object(
        seq![
            ("servers"@, JsonView::Array(servers.map_values(|r: ServerReport| topology_entry_view(r)))),
            ("totalServers"@, count_view(servers.len())),
        ],
    )
}

/// The topology document of the given servers.
pub fn topology_document(servers: &Vec<ServerReport>) -> (r: Json)
    ensures
        r@ == topology_view(servers@),
{
    let n = servers.len();
    let mut items: Vec<Json> = Vec::new();
    let mut i: usize = 0;
    while i < n
        invariant
            n == servers@.len(),
            i <= n,
            items@.len() == i,
            forall|j: int| 0 <= j < i ==> #[trigger] items@[j]@ == topology_entry_view(servers@[j]),
        decreases n - i,
    {
        items.push(topology_entry(&servers[i]));
        i = i + 1;
    }
    let ghost listed = servers@.map_values(|r: ServerReport| topology_entry_view(r));
    proof {
        assert forall|j: int| 0 <= j < items@.len() implies crate::json::json_view(#[trigger] items@[j])
            == listed[j] by {
            assert(items@[j]@ == topology_entry_view(servers@[j]));
        }
        lemma_items_view_ext(items@, listed);
    }
    let e = vec![kv("servers", Json::Array(items)), kv("totalServers", count_json(n as u64))];
    proof {
        lemma_entries_view_ext(e@, topology_view(servers@)->Object_0);
    }
    Json::Object(e)
}

/// The metrics document: the server gauges, the request counters and the
/// connection gauge and counter.
pub open spec fn metrics_view(m: MetricCounts) -> JsonView {
    JsonView::Object(
        seq![
            (
                "servers"@,
                JsonView::Object(
                    seq![
                        ("total"@, int_view(m.total_servers)),
                        ("running"@, int_view(m.running_servers)),
                        ("failed"@, int_view(m.failed_servers)),
                    ],
                ),
            ),
            (
                "requests"@,
                JsonView::Object(
                    seq![
                        ("total"@, count_view(m.total_requests as nat)),
                        ("failed"@, count_view(m.failed_requests as nat)),
                    ],
                ),
            ),
            (
                "connections"@,
                JsonView::Object(
                    seq![
                        ("active"@, int_view(m.active_connections)),
                        ("errors"@, count_view(m.connection_errors as nat)),
                    ],
                ),
            ),
        ],
    )
}

/// The metrics document of the given counts.
pub fn metrics_document(m: &MetricCounts) -> (r: Json)
    ensures
        r@ == metrics_view(*m),
{
    let servers = vec![
        kv("total", int_json(m.total_servers)),
        kv("running", int_json(m.running_servers)),
        kv("failed", int_json(m.failed_servers)),
    ];
    let requests = vec![kv("total", count_json(m.total_requests)), kv("failed", count_json(m.failed_requests))];
    let connections = vec![
        kv("active", int_json(m.active_connections)),
        kv("errors", count_json(m.connection_errors)),
    ];
    proof {
        lemma_entries_view_ext(servers@, metrics_view(*m)->Object_0[0].1->Object_0);
        lemma_entries_view_ext(requests@, metrics_view(*m)->Object_0[1].1->Object_0);
        lemma_entries_view_ext(connections@, metrics_view(*m)->Object_0[2].1->Object_0);
    }
    let e = vec![
        kv("servers", Json::Object(servers)),
        kv("requests", Json::Object(requests)),
        kv("connections", Json::Object(connections)),
    ];
    proof {
        lemma_entries_view_ext(e@, metrics_view(*m)->Object_0);
    }
    Json::Object(e)
}

/// The name of a transport kind in the configuration documents.
pub open spec fn transport_label(t: TransportType) -> Seq<char> {
    match t {
        TransportType::Stdio => "stdio"@,
        TransportType::HttpSse => "httpSse"@,
        TransportType::WebSocket => "webSocket"@,
    }
}

/// The name of a transport kind in the configuration documents.
pub fn transport_label_exec(t: TransportType) -> (r: &'static str)
    ensures
        r@ == transport_label(t),
{
    match t {
        TransportType::Stdio => "stdio",
        TransportType::HttpSse => "httpSse",
        TransportType::WebSocket => "webSocket",
    }
}

/// What the configuration documents show of one server: nothing of its
/// command, arguments or environment.
#[derive(Debug)]
pub struct ServerSettings {
    pub name: String,
    pub transport: TransportType,
    pub enabled: bool,
    pub restart_on_failure: bool,
    pub max_restarts: u32,
    pub health_check_enabled: bool,
}

/// What the configuration document shows of the proxy and the web UI.
#[derive(Debug)]
pub struct ProxySettings {
    pub host: String,
    pub port: u16,
    pub connection_pool_size: usize,
    pub web_ui_enabled: bool,
    pub web_ui_port: u16,
}

/// One server in the configuration document, under its name.
pub open spec fn settings_entry_view(s: ServerSettings) -> (Seq<char>, JsonView) {
    (
        s.name@,
        JsonView::Object(
            seq![
                ("transport"@, JsonView::Str(transport_label(s.transport))),
                ("enabled"@, JsonView::Bool(s.enabled)),
                ("restartOnFailure"@, JsonView::Bool(s.restart_on_failure)),
                ("maxRestarts"@, count_view(s.max_restarts as nat)),
                ("healthCheckEnabled"@, JsonView::Bool(s.health_check_enabled)),
            ],
        ),
    )
}

fn settings_entry(s: &ServerSettings) -> (r: (String, Json))
    ensures
        (r.0@, r.1@) == settings_entry_view(*s),
{
    let e = vec![
        kv("transport", Json::string(transport_label_exec(s.transport))),
        kv("enabled", Json::Bool(s.enabled)),
        kv("restartOnFailure", Json::Bool(s.restart_on_failure)),
        kv("maxRestarts", count_json(s.max_restarts as u64)),
        kv("healthCheckEnabled", Json::Bool(s.health_check_enabled)),
    ];
    proof {
        lemma_entries_view_ext(e@, settings_entry_view(*s).1->Object_0);
    }
    (s.name.clone(), Json::Object(e))
}

/// The sanitized configuration document: each server under its name, in
/// the order given, then the proxy's and the web UI's settings.
pub open spec fn config_view(servers: Seq<ServerSettings>, proxy: ProxySettings) -> JsonView {
    JsonView::Object(
        seq![
            ("servers"@, JsonView::Object(servers.map_values(|s: ServerSettings| settings_entry_view(s)))),
            (
                "proxy"@,
                JsonView::Object(
                    seq![
                        ("host"@, JsonView::Str(proxy.host@)),
                        ("port"@, count_view(proxy.port as nat)),
                        ("connectionPoolSize"@, count_view(proxy.connection_pool_size as nat)),
                    ],
                ),
            ),
            (
                "webUi"@,
                JsonView::Object(
                    seq![
                        ("enabled"@, JsonView::Bool(proxy.web_ui_enabled)),
                        ("port"@, count_view(proxy.web_ui_port as nat)),
                    ],
                ),
            ),
        ],
    )
}

/// The sanitized configuration document.
pub fn config_document(servers: &Vec<ServerSettings>, proxy: &ProxySettings) -> (r: Json)
    ensures
        r@ == config_view(servers@, *proxy),
{
    let n = servers.len();
    let mut entries: Vec<(String, Json)> = Vec::new();
    let mut i: usize = 0;
    while i < n
        invariant
            n == servers@.len(),
            i <= n,
            entries@.len() == i,
            forall|j: int|
                0 <= j < i ==> (#[trigger] entries@[j].0@, entries@[j].1@) == settings_entry_view(servers@[j]),
        decreases n - i,
    {
        entries.push(settings_entry(&servers[i]));
        i = i + 1;
    }
    proof {
        lemma_entries_view_ext(entries@, servers@.map_values(|s: ServerSettings| settings_entry_view(s)));
    }
    let p = vec![
        kv("host", Json::string(proxy.host.as_str())),
        kv("port", count_json(proxy.port as u64)),
        kv("connectionPoolSize", count_json(proxy.connection_pool_size as u64)),
    ];
    let w = vec![kv("enabled", Json::Bool(proxy.web_ui_enabled)), kv("port", count_json(proxy.web_ui_port as u64))];
    proof {
        lemma_entries_view_ext(p@, config_view(servers@, *proxy)->Object_0[1].1->Object_0);
        lemma_entries_view_ext(w@, config_view(servers@, *proxy)->Object_0[2].1->Object_0);
    }
    let e = vec![kv("servers", Json::Object(entries)), kv("proxy", Json::Object(p)), kv("webUi", Json::Object(w))];
    proof {
        lemma_entries_view_ext(e@, config_view(servers@, *proxy)->Object_0);
    }
    Json::Object(e)
}

/// One server's configuration document, under the name it was asked by.
pub open spec fn server_config_view(name: Seq<char>, s: ServerSettings) -> JsonView {
    JsonView::Object(
        seq![
            ("name"@, JsonView::Str(name)),
            ("transport"@, JsonView::Str(transport_label(s.transport))),
            ("enabled"@, JsonView::Bool(s.enabled)),
            ("restartOnFailure"@, JsonView::Bool(s.restart_on_failure)),
        ],
    )
}

/// The configuration document of the server `name`, whose settings were
/// looked up as `found`; a server that is not configured is not found.
pub fn server_config_document(name: &str, found: Option<&ServerSettings>) -> (r: Result<Json, ProxyError>)
    ensures
        match found {
            None => r matches Err(ProxyError::ServerNotFound(n)) && n@ == name@,
            Some(s) => r matches Ok(j) && j@ == server_config_view(name@, *s),
        },
{
    match found {
        None => Err(ProxyError::ServerNotFound(name.to_string())),
        Some(s) => {
            let e = vec![
                kv("name", Json::string(name)),
                kv("transport", Json::string(transport_label_exec(s.transport))),
                kv("enabled", Json::Bool(s.enabled)),
                kv("restartOnFailure", Json::Bool(s.restart_on_failure)),
            ];
            proof {
                lemma_entries_view_ext(e@, server_config_view(name@, *s)->Object_0);
            }
            Ok(Json::Object(e))
        },
    }
}

/// A note about one server: its name and a message.
pub open spec fn server_note_view(server: Seq<char>, message: Seq<char>) -> JsonView {
    JsonView::Object(seq![("server"@, JsonView::Str(server)), ("message"@, JsonView::Str(message))])
}

fn server_note(server: &str, message: &str) -> (r: Json)
    ensures
        r@ == server_note_view(server@, message@),
{
    let e = vec![kv("server", Json::string(server)), kv("message", Json::string(message))];
    proof {
        lemma_entries_view_ext(e@, server_note_view(server@, message@)->Object_0);
    }
    Json::Object(e)
}

/// The document of `proxy://metrics/{server}`: per-server metrics are not
/// tracked yet.
pub fn server_metrics_note(server_name: &str) -> (r: Json)
    ensures
        r@ == server_note_view(server_name@, "Per-server metrics coming soon!"@),
{
    server_note(server_name, "Per-server metrics coming soon!")
}

/// The document of `proxy://server/{server}/capabilities`: capabilities are
/// not cached yet.
pub fn server_capabilities_note(server_name: &str) -> (r: Json)
    ensures
        r@ == server_note_view(server_name@, "Capability caching coming soon!"@),
{
    server_note(server_name, "Capability caching coming soon!")
}

} // verus!
