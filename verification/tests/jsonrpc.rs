use mcp_rust_proxy::json::{Json, JsonNumber};
use mcp_rust_proxy::protocol::message::{
    create_ping_request, JsonRpcId, JsonRpcMessage, JsonRpcV2Message,
};
use mcp_rust_proxy::proxy::RequestRouter;

fn to_json(v: &serde_json::Value) -> Json {
    match v {
        serde_json::Value::Null => Json::Null,
        serde_json::Value::Bool(b) => Json::Bool(*b),
        serde_json::Value::Number(n) => {
            if let Some(u) = n.as_u64() {
                Json::Number(JsonNumber::PosInt(u))
            } else if let Some(i) = n.as_i64() {
                Json::Number(JsonNumber::NegInt(i))
            } else {
                Json::Number(JsonNumber::Float(n.to_string()))
            }
        }
        serde_json::Value::String(s) => Json::Str(s.clone()),
        serde_json::Value::Array(a) => Json::Array(a.iter().map(to_json).collect()),
        serde_json::Value::Object(o) => {
            Json::Object(o.iter().map(|(k, v)| (k.clone(), to_json(v))).collect())
        }
    }
}

fn parse(text: &str) -> Json {
    to_json(&serde_json::from_str::<serde_json::Value>(text).unwrap())
}

fn message(text: &str) -> JsonRpcMessage {
    JsonRpcMessage::from_json(&parse(text)).unwrap()
}

#[test]
fn test_ping_request_serialization() {
    let ping_request = create_ping_request(JsonRpcId::Number(1));
    let json = ping_request.to_json();
    assert_eq!(json.get("jsonrpc"), Some(&Json::Str("2.0".to_string())));
    if let JsonRpcMessage::V2(JsonRpcV2Message::Request(req)) = ping_request {
        assert_eq!(req.method, "ping");
        assert_eq!(req.params, Some(parse("{}")));
        match req.id {
            JsonRpcId::Number(n) => assert_eq!(n, 1),
            _ => panic!("Expected number ID"),
        }
    } else {
        panic!("Expected request message");
    }
}

#[test]
fn test_ping_response_deserialization() {
    let response = message(r#"{"jsonrpc": "2.0", "id": 1, "result": {}}"#);
    if let JsonRpcMessage::V2(JsonRpcV2Message::Response(resp)) = response {
        match resp.id {
            JsonRpcId::Number(n) => assert_eq!(n, 1),
            _ => panic!("Expected number ID"),
        }
        assert!(resp.result.is_some());
        assert!(resp.error.is_none());
    } else {
        panic!("Expected response message");
    }
}

#[test]
fn test_error_response_deserialization() {
    let response = message(
        r#"{"jsonrpc": "2.0", "id": 1, "error": {"code": -32601, "message": "Method not found"}}"#,
    );
    if let JsonRpcMessage::V2(JsonRpcV2Message::Response(resp)) = response {
        assert!(resp.result.is_none());
        assert!(resp.error.is_some());
        let error = resp.error.unwrap();
        assert_eq!(error.code, -32601);
        assert_eq!(error.message, "Method not found");
    } else {
        panic!("Expected response message");
    }
}

#[test]
fn test_notification_deserialization() {
    let message = message(
        r#"{"jsonrpc": "2.0", "method": "progress", "params": {"token": "abc123", "value": 50}}"#,
    );
    if let JsonRpcMessage::V2(JsonRpcV2Message::Notification(notif)) = message {
        assert_eq!(notif.method, "progress");
        assert!(notif.params.is_some());
        let params = notif.params.unwrap();
        assert_eq!(params.get("token"), Some(&Json::Str("abc123".to_string())));
        assert_eq!(params.get("value"), Some(&Json::Number(JsonNumber::PosInt(50))));
    } else {
        panic!("Expected notification message");
    }
}

#[test]
fn test_string_id_support() {
    let request = message(r#"{"jsonrpc": "2.0", "id": "custom-id-123", "method": "test", "params": {}}"#);
    if let JsonRpcMessage::V2(JsonRpcV2Message::Request(req)) = request {
        match req.id {
            JsonRpcId::String(s) => assert_eq!(s, "custom-id-123"),
            _ => panic!("Expected string ID"),
        }
    } else {
        panic!("Expected request message");
    }
}

#[test]
fn test_mcp_cancel_notification() {
    let message = message(
        r#"{"jsonrpc": "2.0", "method": "notifications/cancelled", "params": {"requestId": 42, "reason": "User cancelled operation"}}"#,
    );
    if let JsonRpcMessage::V2(JsonRpcV2Message::Notification(notif)) = message {
        assert_eq!(notif.method, "notifications/cancelled");
        let params = notif.params.unwrap();
        assert_eq!(params.get("requestId"), Some(&Json::Number(JsonNumber::PosInt(42))));
        assert_eq!(params.get("reason"), Some(&Json::Str("User cancelled operation".to_string())));
    } else {
        panic!("Expected notification message");
    }
}

#[test]
fn test_request_routing() {
    let mut router = RequestRouter::new();
    router.register_tool("tools/list".to_string(), "server1".to_string());
    router.register_resource("resources/list".to_string(), "server2".to_string());
    assert_eq!(router.get_server_for_tool("tools/list"), Some("server1".to_string()));
    assert_eq!(router.get_server_for_tool("tools/other"), None);
    assert_eq!(router.get_server_for_resource("resources/list"), Some("server2".to_string()));
    assert_eq!(router.get_server_for_resource("resources/other"), None);
}

#[test]
fn test_request_parsing() {
    let request = message(r#"{"jsonrpc": "2.0", "id": 1, "method": "tools/list", "params": {}}"#);
    if let JsonRpcMessage::V2(JsonRpcV2Message::Request(req)) = request {
        assert_eq!(req.method, "tools/list");
        assert!(matches!(req.id, JsonRpcId::Number(1)));
    } else {
        panic!("Expected request message");
    }
}

#[test]
fn test_cancellation_notification_parsing() {
    let message = message(
        r#"{"jsonrpc": "2.0", "method": "notifications/cancelled", "params": {"requestId": 42, "reason": "User cancelled"}}"#,
    );
    if let JsonRpcMessage::V2(JsonRpcV2Message::Notification(notif)) = message {
        assert_eq!(notif.method, "notifications/cancelled");
        assert!(notif.params.is_some());
        let params = notif.params.unwrap();
        assert_eq!(params.get("requestId"), Some(&Json::Number(JsonNumber::PosInt(42))));
        assert_eq!(params.get("reason"), Some(&Json::Str("User cancelled".to_string())));
    } else {
        panic!("Expected notification message");
    }
}

#[test]
fn message_round_trip_through_json() {
    let original = parse(r#"{"jsonrpc": "2.0", "id": "a", "result": {"x": [1, 2]}}"#);
    let msg = JsonRpcMessage::from_json(&original).unwrap();
    let back = msg.to_json();
    let again = JsonRpcMessage::from_json(&back).unwrap();
    assert_eq!(again.to_json(), back);
}

#[test]
fn message_without_version_is_refused() {
    assert!(JsonRpcMessage::from_json(&parse(r#"{"id": 1, "method": "x"}"#)).is_none());
}
