use mcp_rust_proxy::json::{Json, JsonNumber};
use mcp_rust_proxy::protocol::adapter::ProtocolAdapter;
use mcp_rust_proxy::protocol::adapters::{
    create_adapter, PassThroughAdapter, V20241105ToV20250326Adapter, V20241105ToV20250618Adapter,
    V20250326ToV20241105Adapter, V20250326ToV20250618Adapter, V20250618ToV20241105Adapter,
    V20250618ToV20250326Adapter,
};
use mcp_rust_proxy::protocol::version::ProtocolVersion;

fn to_json(v: &serde_json::Value) -> Json {
    match v {
        serde_json::Value::Null => Json::Null,
        serde_json::Value::Bool(b) => Json::Bool(*b),
        serde_json::Value::Number(n) => {
            if let Some(u) = n.as_u64() {
                Json::Number(JsonNumber::PosInt(u))
            } else if let Some(i) = n.as_i64() {
                Json::Number(JsonNumber::NegInt(i))
            } else {
                Json::Number(JsonNumber::Float(n.to_string()))
            }
        }
        serde_json::Value::String(s) => Json::Str(s.clone()),
        serde_json::Value::Array(a) => Json::Array(a.iter().map(to_json).collect()),
        serde_json::Value::Object(o) => {
            Json::Object(o.iter().map(|(k, v)| (k.clone(), to_json(v))).collect())
        }
    }
}

fn parse(text: &str) -> Json {
    to_json(&serde_json::from_str::<serde_json::Value>(text).unwrap())
}

fn at<'a>(j: &'a Json, path: &[&str]) -> &'a Json {
    let mut cur = j;
    for key in path {
        cur = match key.parse::<usize>() {
            Ok(i) => &cur.as_array().unwrap()[i],
            Err(_) => cur.get(key).unwrap(),
        };
    }
    cur
}

fn s(text: &str) -> Json {
    Json::Str(text.to_string())
}

const TOOLS_V1: &str = r#"{"jsonrpc": "2.0", "id": 1, "result": {"tools": [{"name": "my-tool", "description": "Does things", "inputSchema": {"type": "object"}}]}}"#;
const TOOLS_V2: &str = r#"{"jsonrpc": "2.0", "id": 1, "result": {"tools": [{"name": "my-tool", "title": "My Tool", "description": "Does things", "inputSchema": {"type": "object"}, "outputSchema": {"type": "string"}}]}}"#;
const CONTENTS_V1: &str = r#"{"jsonrpc": "2.0", "id": 1, "result": {"contents": [{"uri": "file:///home/user/document.txt", "mimeType": "text/plain", "text": "content"}]}}"#;
const CONTENTS_V2: &str = r#"{"jsonrpc": "2.0", "id": 1, "result": {"contents": [{"uri": "file:///test.txt", "name": "test.txt", "title": "Test File", "mimeType": "text/plain", "text": "content"}]}}"#;
const CALL_REQUEST: &str = r#"{"jsonrpc": "2.0", "id": 1, "method": "tools/call", "params": {"name": "my-tool", "arguments": {}}}"#;

#[test]
fn test_same_version_returns_pass_through() {
    let adapter = create_adapter(ProtocolVersion::V20250326, ProtocolVersion::V20250326);
    assert_eq!(adapter.source_version(), ProtocolVersion::V20250326);
    assert_eq!(adapter.target_version(), ProtocolVersion::V20250326);
}

#[test]
fn test_all_versions_supported() {
    let versions = vec![ProtocolVersion::V20241105, ProtocolVersion::V20250326, ProtocolVersion::V20250618];
    for version in versions {
        let adapter = create_adapter(version, version);
        assert_eq!(adapter.source_version(), version);
        assert_eq!(adapter.target_version(), version);
    }
}

#[test]
fn test_all_version_pairs_have_adapters() {
    let versions = vec![ProtocolVersion::V20241105, ProtocolVersion::V20250326, ProtocolVersion::V20250618];
    for source in &versions {
        for target in &versions {
            let adapter = create_adapter(*source, *target);
            assert_eq!(adapter.source_version(), *source);
            assert_eq!(adapter.target_version(), *target);
        }
    }
}

#[test]
fn test_translation_adapters_used_for_different_versions() {
    let adapter = create_adapter(ProtocolVersion::V20241105, ProtocolVersion::V20250618);
    assert_eq!(adapter.source_version(), ProtocolVersion::V20241105);
    assert_eq!(adapter.target_version(), ProtocolVersion::V20250618);
    let adapter = create_adapter(ProtocolVersion::V20250618, ProtocolVersion::V20241105);
    assert_eq!(adapter.source_version(), ProtocolVersion::V20250618);
    assert_eq!(adapter.target_version(), ProtocolVersion::V20241105);
    let adapter = create_adapter(ProtocolVersion::V20250326, ProtocolVersion::V20250618);
    assert_eq!(adapter.source_version(), ProtocolVersion::V20250326);
    assert_eq!(adapter.target_version(), ProtocolVersion::V20250618);
}

#[test]
fn test_pass_through_preserves_data() {
    let adapter = PassThroughAdapter::new(ProtocolVersion::V20250326);
    let data = parse(r#"{"test": "data", "number": 42}"#);
    let result = adapter.translate_request(data.clone()).unwrap();
    assert_eq!(result, data);
}

#[test]
fn v20241105_to_v20250326_test_adapter_versions() {
    let adapter = V20241105ToV20250326Adapter::new();
    assert_eq!(adapter.source_version(), ProtocolVersion::V20241105);
    assert_eq!(adapter.target_version(), ProtocolVersion::V20250326);
}

#[test]
fn v20241105_to_v20250326_test_tools_list_response_compatible() {
    let adapter = V20241105ToV20250326Adapter::new();
    let response = parse(TOOLS_V1);
    let translated = adapter.translate_response(response.clone()).unwrap();
    assert_eq!(translated, response);
}

#[test]
fn test_resources_read_response_compatible() {
    let adapter = V20241105ToV20250326Adapter::new();
    let response = parse(CONTENTS_V1);
    let translated = adapter.translate_response(response.clone()).unwrap();
    assert_eq!(translated, response);
}

#[test]
fn v20241105_to_v20250326_test_request_pass_through() {
    let adapter = V20241105ToV20250326Adapter::new();
    let request = parse(CALL_REQUEST);
    let translated = adapter.translate_request(request.clone()).unwrap();
    assert_eq!(translated, request);
}

#[test]
fn v20241105_to_v20250618_test_adapter_versions() {
    let adapter = V20241105ToV20250618Adapter::new();
    assert_eq!(adapter.source_version(), ProtocolVersion::V20241105);
    assert_eq!(adapter.target_version(), ProtocolVersion::V20250618);
}

#[test]
fn test_tools_list_response_translation() {
    let adapter = V20241105ToV20250618Adapter::new();
    let translated = adapter.translate_response(parse(TOOLS_V1)).unwrap();
    assert_eq!(at(&translated, &["result", "tools", "0", "name"]), &s("my-tool"));
    assert_eq!(at(&translated, &["result", "tools", "0", "description"]), &s("Does things"));
}

#[test]
fn v20241105_to_v20250618_test_resources_read_adds_name() {
    let adapter = V20241105ToV20250618Adapter::new();
    let translated = adapter.translate_response(parse(CONTENTS_V1)).unwrap();
    assert_eq!(at(&translated, &["result", "contents", "0", "name"]), &s("document.txt"));
    assert_eq!(at(&translated, &["result", "contents", "0", "uri"]), &s("file:///home/user/document.txt"));
}

#[test]
fn v20241105_to_v20250618_test_request_pass_through() {
    let adapter = V20241105ToV20250618Adapter::new();
    let request = parse(CALL_REQUEST);
    assert_eq!(adapter.translate_request(request.clone()).unwrap(), request);
}

#[test]
fn v20250326_to_v20241105_test_adapter_versions() {
    let adapter = V20250326ToV20241105Adapter::new();
    assert_eq!(adapter.source_version(), ProtocolVersion::V20250326);
    assert_eq!(adapter.target_version(), ProtocolVersion::V20241105);
}

#[test]
fn test_audio_content_converted_to_text() {
    let adapter = V20250326ToV20241105Adapter::new();
    let response = parse(
        r#"{"jsonrpc": "2.0", "id": 1, "result": {"content": [{"type": "audio", "data": "base64data", "mimeType": "audio/mp3"}]}}"#,
    );
    let translated = adapter.translate_response(response).unwrap();
    assert_eq!(at(&translated, &["result", "content", "0", "type"]), &s("text"));
    assert_eq!(at(&translated, &["result", "content", "0", "text"]), &s("[Audio content: audio/mp3]"));
}

#[test]
fn test_text_and_image_content_preserved() {
    let adapter = V20250326ToV20241105Adapter::new();
    let response = parse(
        r#"{"jsonrpc": "2.0", "id": 1, "result": {"content": [{"type": "text", "text": "Hello"}, {"type": "image", "data": "imagedata", "mimeType": "image/png"}]}}"#,
    );
    let translated = adapter.translate_response(response.clone()).unwrap();
    assert_eq!(translated, response);
}

#[test]
fn test_resources_updated_notification_dropped() {
    let adapter = V20250326ToV20241105Adapter::new();
    let notification = parse(r#"{"jsonrpc": "2.0", "method": "notifications/resources/updated"}"#);
    assert!(adapter.translate_notification(notification).is_err());
}

#[test]
fn test_other_notifications_preserved() {
    let adapter = V20250326ToV20241105Adapter::new();
    let notification = parse(r#"{"jsonrpc": "2.0", "method": "notifications/initialized"}"#);
    let translated = adapter.translate_notification(notification.clone()).unwrap();
    assert_eq!(translated, notification);
}

#[test]
fn v20250326_to_v20250618_test_adapter_versions() {
    let adapter = V20250326ToV20250618Adapter::new();
    assert_eq!(adapter.source_version(), ProtocolVersion::V20250326);
    assert_eq!(adapter.target_version(), ProtocolVersion::V20250618);
}

#[test]
fn v20250326_to_v20250618_test_resources_read_adds_name() {
    let adapter = V20250326ToV20250618Adapter::new();
    let translated = adapter.translate_response(parse(CONTENTS_V1)).unwrap();
    assert_eq!(at(&translated, &["result", "contents", "0", "name"]), &s("document.txt"));
    assert_eq!(at(&translated, &["result", "contents", "0", "uri"]), &s("file:///home/user/document.txt"));
}

#[test]
fn v20250326_to_v20250618_test_tools_list_response_compatible() {
    let adapter = V20250326ToV20250618Adapter::new();
    let response = parse(TOOLS_V1);
    assert_eq!(adapter.translate_response(response.clone()).unwrap(), response);
}

#[test]
fn v20250326_to_v20250618_test_request_pass_through() {
    let adapter = V20250326ToV20250618Adapter::new();
    let request = parse(CALL_REQUEST);
    assert_eq!(adapter.translate_request(request.clone()).unwrap(), request);
}

#[test]
fn v20250618_to_v20241105_test_adapter_versions() {
    let adapter = V20250618ToV20241105Adapter::new();
    assert_eq!(adapter.source_version(), ProtocolVersion::V20250618);
    assert_eq!(adapter.target_version(), ProtocolVersion::V20241105);
}

#[test]
fn test_tools_list_strips_fields() {
    let adapter = V20250618ToV20241105Adapter::new();
    let translated = adapter.translate_response(parse(TOOLS_V2)).unwrap();
    let tool = at(&translated, &["result", "tools", "0"]);
    assert_eq!(tool.get("name"), Some(&s("my-tool")));
    assert_eq!(tool.get("description"), Some(&s("Does things")));
    assert!(tool.get("title").is_none(), "title should be stripped");
    assert!(tool.get("outputSchema").is_none(), "outputSchema should be stripped");
}

#[test]
fn v20250618_to_v20241105_test_resources_read_strips_name_and_title() {
    let adapter = V20250618ToV20241105Adapter::new();
    let translated = adapter.translate_response(parse(CONTENTS_V2)).unwrap();
    let content = at(&translated, &["result", "contents", "0"]);
    assert_eq!(content.get("uri"), Some(&s("file:///test.txt")));
    assert!(content.get("name").is_none(), "name should be stripped");
    assert!(content.get("title").is_none(), "title should be stripped");
}

#[test]
fn v20250618_to_v20241105_test_audio_content_converts_to_text() {
    let adapter = V20250618ToV20241105Adapter::new();
    let response = parse(
        r#"{"jsonrpc": "2.0", "id": 1, "result": {"content": [{"type": "audio", "data": "base64audiodata", "mimeType": "audio/mp3"}]}}"#,
    );
    let translated = adapter.translate_response(response).unwrap();
    let content = at(&translated, &["result", "content", "0"]);
    assert_eq!(content.get("type"), Some(&s("text")));
    assert_eq!(content.get("text"), Some(&s("[Audio content: audio/mp3]")));
}

#[test]
fn v20250618_to_v20250326_test_adapter_versions() {
    let adapter = V20250618ToV20250326Adapter::new();
    assert_eq!(adapter.source_version(), ProtocolVersion::V20250618);
    assert_eq!(adapter.target_version(), ProtocolVersion::V20250326);
}

#[test]
fn test_tools_list_strips_title_and_output_schema() {
    let adapter = V20250618ToV20250326Adapter::new();
    let translated = adapter.translate_response(parse(TOOLS_V2)).unwrap();
    let tool = at(&translated, &["result", "tools", "0"]);
    assert_eq!(tool.get("name"), Some(&s("my-tool")));
    assert_eq!(tool.get("description"), Some(&s("Does things")));
    assert!(tool.get("title").is_none());
    assert!(tool.get("outputSchema").is_none());
}

#[test]
fn v20250618_to_v20250326_test_resources_read_strips_name_and_title() {
    let adapter = V20250618ToV20250326Adapter::new();
    let translated = adapter.translate_response(parse(CONTENTS_V2)).unwrap();
    let content = at(&translated, &["result", "contents", "0"]);
    assert_eq!(content.get("uri"), Some(&s("file:///test.txt")));
    assert!(content.get("name").is_none());
    assert!(content.get("title").is_none());
}

#[test]
fn test_tools_call_strips_structured_content() {
    let adapter = V20250618ToV20250326Adapter::new();
    let response = parse(
        r#"{"jsonrpc": "2.0", "id": 1, "result": {"content": [{"type": "text", "text": "result"}], "structuredContent": {"key": "value"}}}"#,
    );
    let translated = adapter.translate_response(response).unwrap();
    let result = at(&translated, &["result"]);
    assert!(result.get("content").is_some());
    assert!(result.get("structuredContent").is_none());
}

#[test]
fn v20250618_to_v20250326_test_request_pass_through() {
    let adapter = V20250618ToV20250326Adapter::new();
    let request = parse(CALL_REQUEST);
    assert_eq!(adapter.translate_request(request.clone()).unwrap(), request);
}

#[test]
fn downgrade_keeps_responses_without_translatable_parts() {
    let adapter = V20250618ToV20241105Adapter::new();
    let response = parse(r#"{"jsonrpc": "2.0", "id": 7, "result": {"other": true}}"#);
    assert_eq!(adapter.translate_response(response.clone()).unwrap(), response);
}
