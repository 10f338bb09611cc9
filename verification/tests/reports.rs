use mcp_rust_proxy::json::{Json, JsonNumber};
use mcp_rust_proxy::proxy::error::ProxyError;
use mcp_rust_proxy::proxy::reports::{
    config_document, health_document, metrics_document, server_capabilities_note, server_config_document,
    server_metrics_note, topology_document, transport_label_exec, ProxySettings, ServerReport, ServerSettings,
};
use mcp_rust_proxy::proxy::server_tools::{server_list_entry, server_listing};
use mcp_rust_proxy::state::{MetricCounts, ServerState};
use mcp_rust_proxy::transport::TransportType;
use mcp_rust_proxy::web::ws::health_check_entry;

fn to_value(j: &Json) -> serde_json::Value {
    match j {
        Json::Null => serde_json::Value::Null,
        Json::Bool(b) => serde_json::Value::Bool(*b),
        Json::Number(JsonNumber::PosInt(u)) => serde_json::Value::from(*u),
        Json::Number(JsonNumber::NegInt(i)) => serde_json::Value::from(*i),
        Json::Number(JsonNumber::Float(f)) => serde_json::from_str(f).unwrap(),
        Json::Str(s) => serde_json::Value::String(s.clone()),
        Json::Array(a) => serde_json::Value::Array(a.iter().map(to_value).collect()),
        Json::Object(o) => {
            serde_json::Value::Object(o.iter().map(|(k, v)| (k.clone(), to_value(v))).collect())
        }
    }
}

fn v(text: &str) -> serde_json::Value {
    serde_json::from_str(text).unwrap()
}

fn report(name: &str, state: ServerState, enabled: bool, restart_count: u32) -> ServerReport {
    ServerReport { name: name.to_string(), state, enabled, restart_count }
}

#[test]
fn health_document_counts_servers_by_state() {
    let servers = vec![
        report("a", ServerState::Running, true, 0),
        report("b", ServerState::Failed, true, 3),
        report("c", ServerState::Stopped, false, 1),
        report("d", ServerState::Starting, true, 0),
        report("e", ServerState::Running, true, 2),
    ];
    let doc = health_document(&servers);
    assert_eq!(
        to_value(&doc),
        v(r#"{
            "summary": {"healthy": 2, "failed": 1, "stopped": 1, "total": 5},
            "servers": [
                {"name": "a", "state": "Running", "enabled": true, "restartCount": 0},
                {"name": "b", "state": "Failed", "enabled": true, "restartCount": 3},
                {"name": "c", "state": "Stopped", "enabled": false, "restartCount": 1},
                {"name": "d", "state": "Starting", "enabled": true, "restartCount": 0},
                {"name": "e", "state": "Running", "enabled": true, "restartCount": 2}
            ]
        }"#)
    );
}

#[test]
fn health_document_of_no_servers() {
    let doc = health_document(&Vec::new());
    assert_eq!(
        to_value(&doc),
        v(r#"{"summary": {"healthy": 0, "failed": 0, "stopped": 0, "total": 0}, "servers": []}"#)
    );
}

#[test]
fn topology_document_lists_servers_and_their_number() {
    let servers = vec![report("a", ServerState::Running, true, 4), report("b", ServerState::Stopping, false, 0)];
    let doc = topology_document(&servers);
    assert_eq!(
        to_value(&doc),
        v(r#"{
            "servers": [
                {"name": "a", "enabled": true, "state": "Running", "toolsCount": 0, "hasResources": false, "hasPrompts": false},
                {"name": "b", "enabled": false, "state": "Stopping", "toolsCount": 0, "hasResources": false, "hasPrompts": false}
            ],
            "totalServers": 2
        }"#)
    );
}

#[test]
fn metrics_document_reports_gauges_and_counters() {
    let mut m = MetricCounts::new();
    m.increment_server_count();
    m.increment_server_count();
    m.increment_running_servers();
    m.decrement_active_connections();
    m.record_request();
    m.record_request();
    m.record_failed_request();
    m.record_connection_error();
    let doc = metrics_document(&m);
    assert_eq!(
        to_value(&doc),
        v(r#"{
            "servers": {"total": 2, "running": 1, "failed": 0},
            "requests": {"total": 2, "failed": 1},
            "connections": {"active": -1, "errors": 1}
        }"#)
    );
}

#[test]
fn config_document_hides_commands() {
    let servers = vec![ServerSettings {
        name: "fs".to_string(),
        transport: TransportType::Stdio,
        enabled: true,
        restart_on_failure: true,
        max_restarts: 3,
        health_check_enabled: false,
    }];
    let proxy = ProxySettings {
        host: "127.0.0.1".to_string(),
        port: 3000,
        connection_pool_size: 10,
        web_ui_enabled: true,
        web_ui_port: 3001,
    };
    let doc = config_document(&servers, &proxy);
    assert_eq!(
        to_value(&doc),
        v(r#"{
            "servers": {"fs": {"transport": "stdio", "enabled": true, "restartOnFailure": true, "maxRestarts": 3, "healthCheckEnabled": false}},
            "proxy": {"host": "127.0.0.1", "port": 3000, "connectionPoolSize": 10},
            "webUi": {"enabled": true, "port": 3001}
        }"#)
    );
}

#[test]
fn transport_labels() {
    assert_eq!(transport_label_exec(TransportType::Stdio), "stdio");
    assert_eq!(transport_label_exec(TransportType::HttpSse), "httpSse");
    assert_eq!(transport_label_exec(TransportType::WebSocket), "webSocket");
}

#[test]
fn server_config_document_of_known_and_unknown_servers() {
    let s = ServerSettings {
        name: "git".to_string(),
        transport: TransportType::WebSocket,
        enabled: false,
        restart_on_failure: false,
        max_restarts: 0,
        health_check_enabled: true,
    };
    let doc = server_config_document("git", Some(&s)).unwrap();
    assert_eq!(
        to_value(&doc),
        v(r#"{"name": "git", "transport": "webSocket", "enabled": false, "restartOnFailure": false}"#)
    );
    assert_eq!(server_config_document("nope", None), Err(ProxyError::ServerNotFound("nope".to_string())));
}

#[test]
fn server_notes() {
    assert_eq!(
        to_value(&server_metrics_note("a")),
        v(r#"{"server": "a", "message": "Per-server metrics coming soon!"}"#)
    );
    assert_eq!(
        to_value(&server_capabilities_note("b")),
        v(r#"{"server": "b", "message": "Capability caching coming soon!"}"#)
    );
}

#[test]
fn server_list_entries_and_listing() {
    let a = server_list_entry("a", ServerState::Running, 2, Some("2024-01-01T00:00:00+00:00".to_string()));
    let b = server_list_entry("b", ServerState::Stopped, 0, None);
    assert_eq!(
        to_value(&a),
        v(r#"{"name": "a", "state": "Running", "restart_count": 2, "last_access_time": "2024-01-01T00:00:00+00:00"}"#)
    );
    assert_eq!(to_value(&b), v(r#"{"name": "b", "state": "Stopped", "restart_count": 0, "last_access_time": null}"#));
    let listing = server_listing(&vec![a, b]);
    assert_eq!(listing.get("servers").unwrap().as_array().unwrap().len(), 2);
}

#[test]
fn health_check_entries() {
    let passed = health_check_entry("t", true, Some(12), None);
    assert_eq!(
        to_value(&passed),
        v(r#"{"timestamp": "t", "success": true, "response_time_ms": 12, "error": null}"#)
    );
    let failed = health_check_entry("u", false, None, Some("timeout".to_string()));
    assert_eq!(
        to_value(&failed),
        v(r#"{"timestamp": "u", "success": false, "response_time_ms": null, "error": "timeout"}"#)
    );
}

fn queued(id: &str, method: &str) -> mcp_rust_proxy::proxy::router::QueuedRequest {
    mcp_rust_proxy::proxy::router::QueuedRequest {
        request_id: id.to_string(),
        method: method.to_string(),
        params: None,
        response_tx: std::sync::Arc::new(tokio::sync::Mutex::new(None)),
    }
}

#[test]
fn queued_requests_come_out_in_order() {
    let mut router = mcp_rust_proxy::proxy::RequestRouter::new();
    assert_eq!(router.queued_request_count("s"), 0);
    router.queue_request("s", queued("1", "tools/list"));
    router.queue_request("s", queued("2", "tools/call"));
    router.queue_request("t", queued("3", "ping"));
    assert_eq!(router.queued_request_count("s"), 2);
    assert_eq!(router.queued_request_count("t"), 1);
    let out = router.process_queued_requests("s");
    let ids: Vec<&str> = out.iter().map(|q| q.request_id.as_str()).collect();
    assert_eq!(ids, vec!["1", "2"]);
    assert_eq!(router.queued_request_count("s"), 0);
    assert_eq!(router.queued_request_count("t"), 1);
    assert_eq!(router.clear_queued_requests("t").len(), 1);
    assert_eq!(router.queued_request_count("t"), 0);
}

#[test]
fn unregistering_a_server_drops_only_its_routes() {
    let mut router = mcp_rust_proxy::proxy::RequestRouter::new();
    router.register_tool("a".to_string(), "s1".to_string());
    router.register_tool("b".to_string(), "s2".to_string());
    router.register_resource("r".to_string(), "s1".to_string());
    router.register_prompt("p".to_string(), "s2".to_string());
    router.unregister_server("s1");
    assert_eq!(router.get_server_for_tool("a"), None);
    assert_eq!(router.get_server_for_resource("r"), None);
    assert_eq!(router.get_server_for_tool("b"), Some("s2".to_string()));
    assert_eq!(router.get_server_for_prompt("p"), Some("s2".to_string()));
    router.clear();
    assert_eq!(router.get_server_for_tool("b"), None);
}

#[test]
fn session_ids_are_fresh() {
    let a = mcp_rust_proxy::proxy::tracing_tools::new_session_id();
    let b = mcp_rust_proxy::proxy::tracing_tools::new_session_id();
    assert_eq!(a.len(), 44);
    assert!(a.starts_with("session_"));
    assert_eq!(a.chars().filter(|c| *c == '-').count(), 4);
    assert_ne!(a, b);
}
