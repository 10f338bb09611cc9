use mcp_rust_proxy::json::{Json, JsonNumber};
use mcp_rust_proxy::protocol::error::ProtocolError;
use mcp_rust_proxy::protocol::handshake::{InitializationHandshakeTracker, InitializedNotification};
use mcp_rust_proxy::protocol::message::{JsonRpcId, JsonRpcMessage, JsonRpcV2Message};
use mcp_rust_proxy::protocol::state::{ConnectionState, ServerConnectionState};
use mcp_rust_proxy::protocol::version::ProtocolVersion;
use mcp_rust_proxy::proxy::error::ProxyError;
use mcp_rust_proxy::server::health::{
    check_ping_response, unhealthy_transition, AttemptOutcome, HealthChecker, HealthError, HealthRound,
};
use mcp_rust_proxy::server::lifecycle::{
    decimal_string, start_states, stop_states, FailureAction, ManagedServer, RestartPolicy, ServerManager,
    StopDecision,
};
use mcp_rust_proxy::state::metrics::{metric_specs, MetricCounts, MetricKind, RequestTimer};
use mcp_rust_proxy::state::ServerState;
use mcp_rust_proxy::transport::pool::{
    check_initialize_response, initialize_failed, initialize_request, initialized_notification,
    lookup_decision, version_matches, InitializeOutcome, PoolError, PoolLookup,
};
use mcp_rust_proxy::transport::stdio::{is_log_line_exec, LineReader, ReadStep, StdioTransport};
use mcp_rust_proxy::transport::websocket::WebSocketTransport;
use mcp_rust_proxy::transport::http_sse::HttpSseTransport;
use mcp_rust_proxy::transport::{TransportError, TransportType};
use mcp_rust_proxy::web::api::{action_reply, parse_server_action, server_entry, server_status_reply, ServerAction, ServerStatus};
use mcp_rust_proxy::web::ws::{parse_ws_command, WsCommand, WsSession};
use mcp_rust_proxy::web::{check_api_key, AuthError, AuthErrorKind};

fn to_json(v: &serde_json::Value) -> Json {
    match v {
        serde_json::Value::Null => Json::Null,
        serde_json::Value::Bool(b) => Json::Bool(*b),
        serde_json::Value::Number(n) => {
            if let Some(u) = n.as_u64() {
                Json::Number(JsonNumber::PosInt(u))
            } else if let Some(i) = n.as_i64() {
                Json::Number(JsonNumber::NegInt(i))
            } else {
                Json::Number(JsonNumber::Float(n.to_string()))
            }
        }
        serde_json::Value::String(s) => Json::Str(s.clone()),
        serde_json::Value::Array(a) => Json::Array(a.iter().map(to_json).collect()),
        serde_json::Value::Object(o) => {
            Json::Object(o.iter().map(|(k, v)| (k.clone(), to_json(v))).collect())
        }
    }
}

fn parse(text: &str) -> Json {
    to_json(&serde_json::from_str::<serde_json::Value>(text).unwrap())
}

fn message(text: &str) -> JsonRpcMessage {
    JsonRpcMessage::from_json(&parse(text)).unwrap()
}

fn s(text: &str) -> Json {
    Json::Str(text.to_string())
}

#[test]
fn test_initial_state_is_connecting() {
    let state = ServerConnectionState::new("test-server".to_string());
    assert!(matches!(state.get_state(), ConnectionState::Connecting));
}

#[test]
fn test_valid_transition_connecting_to_initializing() {
    let mut state = ServerConnectionState::new("test-server".to_string());
    let result = state.start_initialization("req-1".to_string());
    assert!(result.is_ok());
    match state.get_state() {
        ConnectionState::Initializing { request_id, .. } => assert_eq!(request_id, "req-1"),
        _ => panic!("Expected Initializing state"),
    }
}

#[test]
fn test_valid_transition_initializing_to_sending_initialized() {
    let mut state = ServerConnectionState::new("test-server".to_string());
    state.start_initialization("req-1".to_string()).unwrap();
    let result = state.received_initialize_response(ProtocolVersion::V20250326);
    assert!(result.is_ok());
    match state.get_state() {
        ConnectionState::SendingInitialized { protocol_version } => {
            assert_eq!(protocol_version, ProtocolVersion::V20250326)
        }
        _ => panic!("Expected SendingInitialized state"),
    }
}

#[test]
fn test_valid_transition_sending_initialized_to_ready() {
    let mut state = ServerConnectionState::new("test-server".to_string());
    state.start_initialization("req-1".to_string()).unwrap();
    state.received_initialize_response(ProtocolVersion::V20250326).unwrap();
    let result = state.complete_initialization();
    assert!(result.is_ok());
    match state.get_state() {
        ConnectionState::Ready { protocol_version, .. } => assert_eq!(protocol_version, ProtocolVersion::V20250326),
        _ => panic!("Expected Ready state"),
    }
}

#[test]
fn test_invalid_transition_returns_error() {
    let mut state = ServerConnectionState::new("test-server".to_string());
    let result = state.complete_initialization();
    assert!(result.is_err());
    match result {
        Err(ProtocolError::InvalidStateTransition { .. }) => {}
        _ => panic!("Expected InvalidStateTransition error"),
    }
}

#[test]
fn test_protocol_version_set_during_received_initialize_response() {
    let mut state = ServerConnectionState::new("test-server".to_string());
    state.start_initialization("req-1".to_string()).unwrap();
    state.received_initialize_response(ProtocolVersion::V20250618).unwrap();
    assert_eq!(state.protocol_version(), Some(ProtocolVersion::V20250618));
}

#[test]
fn test_can_send_request_returns_correct_values() {
    let mut state = ServerConnectionState::new("test-server".to_string());
    assert!(state.can_send_request("initialize"));
    assert!(!state.can_send_request("tools/list"));
    state.start_initialization("req-1".to_string()).unwrap();
    state.received_initialize_response(ProtocolVersion::V20250326).unwrap();
    state.complete_initialization().unwrap();
    assert!(state.can_send_request("tools/list"));
    assert!(state.can_send_request("resources/read"));
    assert!(state.can_send_request("tools/call"));
}

#[test]
fn test_is_ready_only_true_in_ready_state() {
    let mut state = ServerConnectionState::new("test-server".to_string());
    assert!(!state.is_ready());
    state.start_initialization("req-1".to_string()).unwrap();
    assert!(!state.is_ready());
    state.received_initialize_response(ProtocolVersion::V20250326).unwrap();
    assert!(!state.is_ready());
    state.complete_initialization().unwrap();
    assert!(state.is_ready());
}

#[test]
fn test_failed_state_transition() {
    let mut state = ServerConnectionState::new("test-server".to_string());
    state.mark_failed("Connection timeout".to_string());
    match state.get_state() {
        ConnectionState::Failed { error, .. } => {
            assert_eq!(error, "Connection timeout");
        }
        _ => panic!("Expected Failed state"),
    }
}

#[test]
fn refused_transitions_name_the_whole_state() {
    let mut state = ServerConnectionState::new("test-server".to_string());
    state.start_initialization("req-1".to_string()).unwrap();
    state.received_initialize_response(ProtocolVersion::V20250326).unwrap();
    match state.start_initialization("req-2".to_string()) {
        Err(ProtocolError::InvalidStateTransition { from, to }) => {
            assert_eq!(from, "SendingInitialized { protocol_version: V20250326 }");
            assert_eq!(to, "Initializing");
        }
        _ => panic!("Expected InvalidStateTransition error"),
    }
    let mut failed = ServerConnectionState::new("s".to_string());
    failed.mark_failed("say \"no\"\n".to_string());
    assert!(!failed.can_send_request("initialize"));
    match failed.complete_initialization() {
        Err(ProtocolError::InvalidStateTransition { from, to }) => {
            assert!(from.starts_with("Failed { error: \"say \\\"no\\\"\\n\", failed_at: Instant { tv_sec: "));
            assert!(from.ends_with(" }"));
            assert_eq!(to, "Ready");
        }
        _ => panic!("Expected InvalidStateTransition error"),
    }
    let mut fresh = ServerConnectionState::new("s".to_string());
    match fresh.complete_initialization() {
        Err(ProtocolError::InvalidStateTransition { from, .. }) => assert_eq!(from, "Connecting"),
        _ => panic!("Expected InvalidStateTransition error"),
    }
}

#[test]
fn test_initialized_notification_serialization() {
    let notification = InitializedNotification::new();
    assert_eq!(notification.jsonrpc, "2.0");
    assert_eq!(notification.method, "notifications/initialized");
}

#[test]
fn handshake_phases_from_marks() {
    let mut tracker = InitializationHandshakeTracker::started_at(60_000_000_000, 100);
    tracker.mark_initialize_sent_at(110);
    tracker.mark_initialize_received_at(150);
    tracker.mark_initialized_sent_at(155);
    tracker.mark_completed_at(170);
    let timings = tracker.phase_durations();
    assert_eq!(timings.send_initialize, Some(10));
    assert_eq!(timings.wait_for_response, Some(40));
    assert_eq!(timings.send_initialized, Some(5));
    assert_eq!(timings.mark_ready, Some(15));
    assert_eq!(tracker.total_duration(), Some(70));
    assert!(!tracker.is_timed_out_at(60_000_000_100));
    assert!(tracker.is_timed_out_at(60_000_000_101));
}

#[test]
fn ping_answer_is_judged() {
    assert_eq!(check_ping_response(&Some(message(r#"{"jsonrpc": "2.0", "id": 3, "result": {}}"#)), 3), Ok(()));
    assert_eq!(
        check_ping_response(&Some(message(r#"{"jsonrpc": "2.0", "id": 4, "result": {}}"#)), 3),
        Err(HealthError::InvalidResponse)
    );
    assert_eq!(
        check_ping_response(
            &Some(message(r#"{"jsonrpc": "2.0", "id": 3, "error": {"code": -1, "message": "no"}}"#)),
            3
        ),
        Err(HealthError::Unhealthy)
    );
    assert_eq!(
        check_ping_response(&Some(message(r#"{"jsonrpc": "2.0", "id": 3, "method": "x"}"#)), 3),
        Err(HealthError::InvalidResponse)
    );
    assert_eq!(check_ping_response(&None, 3), Err(HealthError::InvalidResponse));
}

#[test]
fn health_round_retries_until_a_pass() {
    let mut round = HealthRound::new(3);
    assert!(round.should_try() && !round.waits_before_next());
    round.record(AttemptOutcome::TimedOut);
    assert!(round.waits_before_next());
    round.record(AttemptOutcome::Failed(HealthError::Unhealthy));
    assert!(round.should_try());
    round.record(AttemptOutcome::Passed(12));
    assert!(!round.should_try());
    assert_eq!(round.status(), (true, Some(12), None));

    let mut round = HealthRound::new(2);
    round.record(AttemptOutcome::Failed(HealthError::InvalidResponse));
    round.record(AttemptOutcome::TimedOut);
    assert!(!round.should_try());
    assert_eq!(round.status(), (false, None, Some("Health check timed out".to_string())));
}

#[test]
fn failed_rounds_up_to_the_threshold_make_a_server_unhealthy() {
    let mut checker = HealthChecker::new("s".to_string(), 2);
    let (id0, ping) = checker.next_ping();
    let (id1, _) = checker.next_ping();
    assert_eq!((id0, id1), (0, 1));
    match ping {
        JsonRpcMessage::V2(JsonRpcV2Message::Request(r)) => {
            assert_eq!(r.method, "ping");
            assert!(matches!(r.id, JsonRpcId::Number(0)));
        }
        _ => panic!("expected a request"),
    }
    assert!(!checker.record_round(false));
    assert!(checker.record_round(false));
    assert!(!checker.record_round(true));
    assert!(!checker.record_round(false));
    assert_eq!(unhealthy_transition(Some(ServerState::Running)), Some(ServerState::Failed));
    assert_eq!(unhealthy_transition(Some(ServerState::Stopped)), None);
    assert_eq!(unhealthy_transition(None), None);
}

#[test]
fn one_failed_round_makes_a_running_server_failed_by_default() {
    let mut checker = HealthChecker::new("test-server".to_string(), 0);
    assert!(checker.record_round(false));
    assert_eq!(unhealthy_transition(Some(ServerState::Running)), Some(ServerState::Failed));
    assert!(!checker.record_round(true));
}

#[test]
fn restart_policy() {
    let server = ManagedServer::new(
        "s".to_string(),
        RestartPolicy { restart_on_failure: true, max_restarts: 3, restart_delay_ms: 1000 },
    );
    assert_eq!(server.handle_failure(0), FailureAction::RestartAfter(1000));
    assert_eq!(server.handle_failure(2), FailureAction::RestartAfter(3000));
    assert_eq!(server.handle_failure(3), FailureAction::GiveUp("Exceeded maximum restart attempts: 3".to_string()));
    let off = ManagedServer::new(
        "s".to_string(),
        RestartPolicy { restart_on_failure: false, max_restarts: 3, restart_delay_ms: 1000 },
    );
    assert_eq!(off.handle_failure(10), FailureAction::Ignore);
    assert_eq!(decimal_string(0), "0");
    assert_eq!(decimal_string(1234567890), "1234567890");
}

#[test]
fn lifecycle_states() {
    assert_eq!(start_states(true), (ServerState::Starting, ServerState::Running));
    assert_eq!(start_states(false), (ServerState::Starting, ServerState::Failed));
    assert_eq!(stop_states(), (ServerState::Stopping, ServerState::Stopped));
    assert_eq!(ServerManager::stop_decision("a", Some(ServerState::Running), true), StopDecision::Stop);
    assert_eq!(ServerManager::stop_decision("a", Some(ServerState::Stopped), true), StopDecision::AlreadyStopped);
    assert_eq!(
        ServerManager::stop_decision("a", None, true),
        StopDecision::NotFound(ProxyError::ServerNotFound("a".to_string()))
    );
    assert!(ServerManager::start_decision("a", false).is_err());
}

#[test]
fn api_key_check() {
    assert_eq!(check_api_key(Some("Bearer k1"), "k1"), Ok(()));
    assert_eq!(check_api_key(Some("Bearer k2"), "k1"), Err(AuthError::invalid_api_key()));
    assert_eq!(check_api_key(None, "k1"), Err(AuthError { kind: AuthErrorKind::MissingApiKey }));
}

#[test]
fn api_replies() {
    assert_eq!(parse_server_action("restart").unwrap(), ServerAction::Restart);
    let refused = parse_server_action("explode").unwrap_err();
    assert_eq!(refused.status, 400);
    assert_eq!(refused.body.get("error"), Some(&s("Unknown action: explode")));
    let ok = action_reply("a", "start", Ok(()));
    assert_eq!(ok.status, 200);
    assert_eq!(ok.body.get("message"), Some(&s("Server a action start completed")));
    let failed = action_reply("a", "start", Err(ProxyError::ServerNotFound("a".to_string())));
    assert_eq!(failed.status, 500);
    let found = server_status_reply(
        "a",
        Some(ServerStatus {
            state: ServerState::Running,
            restart_count: 2,
            last_health_check: None,
            last_access_time: Some("t".to_string()),
        }),
    );
    assert_eq!(found.status, 200);
    assert_eq!(found.body.get("state"), Some(&s("Running")));
    let missing = server_status_reply("zz", None);
    assert_eq!(missing.status, 404);
    assert_eq!(missing.body.get("error"), Some(&s("Server not found: zz")));
    assert_eq!(found.body.get("last_health_check"), Some(&Json::Null));
    assert_eq!(found.body.get("last_access_time"), Some(&s("t")));
    assert_eq!(server_entry("a", None, 0, None, None).get("state"), Some(&s("Unknown")));
}

#[test]
fn ws_commands_and_updates() {
    assert_eq!(
        parse_ws_command("subscribe_logs", Some("a".to_string())),
        WsCommand::SubscribeLogs { server: "a".to_string(), key: "logs_a".to_string() }
    );
    assert_eq!(parse_ws_command("subscribe_logs", None), WsCommand::Ignore);
    assert_eq!(parse_ws_command("other", Some("a".to_string())), WsCommand::Ignore);
    let (mut session, initial) = WsSession::new(parse(r#"{"servers": []}"#));
    assert_eq!(initial.get("type"), Some(&s("initial")));
    assert_eq!(session.on_tick(parse(r#"{"servers": []}"#)), None);
    let update = session.on_tick(parse(r#"{"servers": [1]}"#)).unwrap();
    assert_eq!(update.get("type"), Some(&s("update")));
    assert_eq!(session.on_tick(parse(r#"{"servers": [1]}"#)), None);
}

#[test]
fn transports() {
    let stdio = StdioTransport::new().with_command("node".to_string(), vec!["x.js".to_string()]);
    assert_eq!(stdio.command, "node");
    assert_eq!(stdio.transport_type(), TransportType::Stdio);
    let sse = HttpSseTransport::new("http://h".to_string(), std::collections::HashMap::new(), 5);
    let mut conn = sse.connect();
    assert_eq!(conn.message_url(), Ok("http://h/message".to_string()));
    assert_eq!(conn.recv(), Err(TransportError::InvalidFormat));
    conn.gate.close();
    assert_eq!(conn.message_url(), Err(TransportError::Closed));
    let ws = WebSocketTransport::new("ws://h".to_string(), vec![], true);
    let mut wconn = ws.connect();
    assert_eq!(wconn.send(b"x"), Ok(()));
    wconn.close();
    assert!(wconn.is_closed());
    assert_eq!(wconn.send(b"x"), Err(TransportError::Closed));
}

#[test]
fn line_reader_frames_messages() {
    let mut reader = LineReader::new();
    assert_eq!(reader.feed(b"{\"a\":"), ReadStep::NeedMore);
    assert_eq!(reader.feed(b"1}\nrest"), ReadStep::Message(b"{\"a\":1}\n".to_vec()));
    let mut reader = LineReader::new();
    assert_eq!(reader.feed(b""), ReadStep::Closed);
    let mut reader = LineReader::new();
    let big = vec![b'x'; 1048577];
    assert_eq!(reader.feed(&big), ReadStep::TooLarge);
    assert!(is_log_line_exec("starting up"));
    assert!(!is_log_line_exec("  {\"jsonrpc\": \"2.0\"}"));
    assert!(is_log_line_exec(""));
}

#[test]
fn initialize_handshake_messages() {
    match initialize_request() {
        JsonRpcMessage::V2(JsonRpcV2Message::Request(r)) => {
            assert_eq!(r.method, "initialize");
            assert_eq!(r.params.unwrap().get("protocolVersion"), Some(&s("2025-03-26")));
        }
        _ => panic!("expected a request"),
    }
    assert!(matches!(initialized_notification(), JsonRpcMessage::V2(JsonRpcV2Message::Notification(_))));
    let accepted = check_initialize_response(&message(
        r#"{"jsonrpc": "2.0", "id": 1, "result": {"protocolVersion": "2024-11-05"}}"#,
    ));
    match accepted {
        InitializeOutcome::Accepted(Some(v)) => {
            assert_eq!(v.protocol_version, "2024-11-05");
            assert_eq!(v.capabilities, parse("{}"));
            assert!(!version_matches(&v.protocol_version));
        }
        other => panic!("unexpected {:?}", other),
    }
    assert_eq!(
        check_initialize_response(&message(r#"{"jsonrpc": "2.0", "id": 1, "error": {"code": 1, "message": "x"}}"#)),
        InitializeOutcome::Refused
    );
    assert_eq!(check_initialize_response(&message(r#"{"jsonrpc": "2.0", "method": "x"}"#)), InitializeOutcome::NotAResponse);
    assert_eq!(
        initialize_failed("s", "detail"),
        TransportError::ConnectionFailed("Initialize failed for s: detail".to_string())
    );
}

#[test]
fn pool_lookup() {
    assert_eq!(lookup_decision("a", Some(false), true), PoolLookup::UseExisting);
    assert_eq!(lookup_decision("a", Some(true), true), PoolLookup::Reconnect { drop_closed: true });
    assert_eq!(lookup_decision("a", None, true), PoolLookup::Reconnect { drop_closed: false });
    assert_eq!(lookup_decision("a", None, false), PoolLookup::Unknown(PoolError::ServerNotFound("a".to_string())));
}

#[test]
fn metrics_move_with_events() {
    let specs = metric_specs();
    assert_eq!(specs.len(), 11);
    assert_eq!(specs[10].name, "mcp_proxy_server_restarts_total");
    assert_eq!(specs[10].kind, MetricKind::Counter);
    assert_eq!(specs[5].name, "mcp_proxy_request_duration_seconds");
    assert_eq!(specs[5].kind, MetricKind::Histogram);
    let mut m = MetricCounts::new();
    m.increment_server_count();
    m.on_state_change(ServerState::Running);
    m.on_state_change(ServerState::Failed);
    m.on_state_change(ServerState::Stopped);
    m.record_health_check(false);
    m.record_health_check(true);
    assert_eq!((m.total_servers, m.running_servers, m.failed_servers), (1, 1, 1));
    assert_eq!((m.health_checks_total, m.health_checks_failed), (2, 1));
    let timer = RequestTimer::new(&mut m, 100);
    assert_eq!(timer.fail(&mut m, 150), 50);
    assert_eq!((m.total_requests, m.failed_requests), (1, 1));
    m.decrement_server_count();
    m.decrement_server_count();
    assert_eq!(m.total_servers, -1);
}

#[test]
fn test_metrics_updates_with_state_changes() {
    let mut m = MetricCounts::new();
    let (t0, r0) = (m.total_servers, m.running_servers);
    m.on_register(ServerState::Stopped);
    m.on_state_change(ServerState::Running);
    m.on_register(ServerState::Running);
    assert_eq!(m.total_servers, t0 + 2);
    assert_eq!(m.running_servers, r0 + 2);
}

#[test]
fn restarts_are_counted() {
    let mut m = MetricCounts::new();
    m.record_restart();
    m.record_restart();
    assert_eq!(m.server_restarts, 2);
    let values = m.values();
    assert_eq!(values.len(), metric_specs().len());
    assert_eq!(values[10], mcp_rust_proxy::state::metrics::MetricValue::Count(2));
    assert_eq!(values[5], mcp_rust_proxy::state::metrics::MetricValue::Durations);
}

#[test]
fn list_entries_carry_health_and_access() {
    let health = mcp_rust_proxy::web::ws::health_check_entry("2024-01-01T00:00:00+00:00", true, Some(50), None);
    let server1 = server_entry(
        "server1",
        Some(ServerState::Running),
        2,
        Some(health),
        Some("2024-01-01T00:00:00+00:00".to_string()),
    );
    assert_eq!(server1.get("state"), Some(&Json::Str("Running".to_string())));
    assert_eq!(server1.get("restart_count"), Some(&Json::Number(JsonNumber::PosInt(2))));
    let hc = server1.get("last_health_check").unwrap();
    assert_eq!(hc.get("success"), Some(&Json::Bool(true)));
    assert_eq!(hc.get("response_time_ms"), Some(&Json::Number(JsonNumber::PosInt(50))));
    assert!(matches!(server1.get("last_access_time"), Some(Json::Str(_))));
    let server2 = server_entry("server2", Some(ServerState::Stopped), 0, None, None);
    assert_eq!(server2.get("state"), Some(&Json::Str("Stopped".to_string())));
    assert_eq!(server2.get("last_health_check"), Some(&Json::Null));
    assert_eq!(server2.get("last_access_time"), Some(&Json::Null));
}

#[test]
fn status_reply_carries_the_failed_health_check() {
    let health = mcp_rust_proxy::web::ws::health_check_entry(
        "2024-01-01T00:00:00+00:00",
        false,
        None,
        Some("Connection timeout".to_string()),
    );
    let r = server_status_reply(
        "test-server",
        Some(ServerStatus {
            state: ServerState::Running,
            restart_count: 5,
            last_health_check: Some(health),
            last_access_time: Some("2024-01-01T00:00:00+00:00".to_string()),
        }),
    );
    assert_eq!(r.status, 200);
    assert_eq!(r.body.get("name"), Some(&Json::Str("test-server".to_string())));
    assert_eq!(r.body.get("restart_count"), Some(&Json::Number(JsonNumber::PosInt(5))));
    let hc = r.body.get("last_health_check").unwrap();
    assert_eq!(hc.get("success"), Some(&Json::Bool(false)));
    assert_eq!(hc.get("error"), Some(&Json::Str("Connection timeout".to_string())));
}

#[test]
fn timed_out_tracker_reports_it() {
    let tracker = InitializationHandshakeTracker::new(1_000_000);
    let start = std::time::Instant::now();
    while start.elapsed() < std::time::Duration::from_millis(5) {}
    assert!(tracker.is_timed_out());
}
