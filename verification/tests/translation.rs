use mcp_rust_proxy::json::Json;
use mcp_rust_proxy::protocol::translation::content::{content_v1_to_v2, content_v2_to_v1};
use mcp_rust_proxy::protocol::translation::resources::{
    generate_resource_name, resource_v1_to_v2, resource_v2_to_v1,
};
use mcp_rust_proxy::protocol::translation::tools::{tool_v1_to_v2, tool_v2_to_v1};
use mcp_rust_proxy::types::mcp::v20241105::{ContentV1, ResourceContentsV1, ToolV1};
use mcp_rust_proxy::types::mcp::v20250326::ContentV2;
use mcp_rust_proxy::types::mcp::v20250618::{ResourceContentsV2, ToolV2};

fn to_json(v: &serde_json::Value) -> Json {
    match v {
        serde_json::Value::Null => Json::Null,
        serde_json::Value::Bool(b) => Json::Bool(*b),
        serde_json::Value::Number(n) => {
            if let Some(u) = n.as_u64() {
                Json::Number(mcp_rust_proxy::json::JsonNumber::PosInt(u))
            } else if let Some(i) = n.as_i64() {
                Json::Number(mcp_rust_proxy::json::JsonNumber::NegInt(i))
            } else {
                Json::Number(mcp_rust_proxy::json::JsonNumber::Float(n.to_string()))
            }
        }
        serde_json::Value::String(s) => Json::Str(s.clone()),
        serde_json::Value::Array(a) => Json::Array(a.iter().map(to_json).collect()),
        serde_json::Value::Object(o) => {
            Json::Object(o.iter().map(|(k, v)| (k.clone(), to_json(v))).collect())
        }
    }
}

fn parse(text: &str) -> Json {
    to_json(&serde_json::from_str::<serde_json::Value>(text).unwrap())
}

#[test]
fn test_text_content_bidirectional() {
    let v1 = ContentV1::Text { text: "Hello".to_string() };
    let v2 = content_v1_to_v2(v1.clone());
    let round_trip = content_v2_to_v1(v2);
    match (v1, round_trip) {
        (ContentV1::Text { text: t1 }, ContentV1::Text { text: t2 }) => {
            assert_eq!(t1, t2);
        }
        _ => panic!("Text content should round-trip"),
    }
}

#[test]
fn test_image_content_bidirectional() {
    let v1 = ContentV1::Image { data: "imagedata".to_string(), mime_type: "image/jpeg".to_string() };
    let v2 = content_v1_to_v2(v1.clone());
    let round_trip = content_v2_to_v1(v2);
    match (v1, round_trip) {
        (
            ContentV1::Image { data: d1, mime_type: m1 },
            ContentV1::Image { data: d2, mime_type: m2 },
        ) => {
            assert_eq!(d1, d2);
            assert_eq!(m1, m2);
        }
        _ => panic!("Image content should round-trip"),
    }
}

#[test]
fn content_test_audio_content_converts_to_text() {
    let v2_audio = ContentV2::Audio { data: "audiodata".to_string(), mime_type: "audio/wav".to_string() };
    let v1 = content_v2_to_v1(v2_audio);
    match v1 {
        ContentV1::Text { text } => {
            assert_eq!(text, "[Audio content: audio/wav]");
        }
        _ => panic!("Audio should convert to Text"),
    }
}

#[test]
fn test_resource_content_translation() {
    let resource_v1 = ResourceContentsV1 {
        uri: "file:///doc.pdf".to_string(),
        mime_type: Some("application/pdf".to_string()),
        text: None,
        blob: Some("base64data".to_string()),
    };
    let v1 = ContentV1::Resource { resource: resource_v1.clone() };
    let v2 = content_v1_to_v2(v1.clone());
    match v2 {
        ContentV2::Resource { resource } => {
            assert_eq!(resource.uri, "file:///doc.pdf");
            assert_eq!(resource.mime_type, Some("application/pdf".to_string()));
            assert_eq!(resource.blob, Some("base64data".to_string()));
        }
        _ => panic!("Expected Resource variant"),
    }
}

#[test]
fn test_content_array_conversion() {
    let v1_array = vec![
        ContentV1::Text { text: "text".to_string() },
        ContentV1::Image { data: "img".to_string(), mime_type: "image/png".to_string() },
    ];
    let v2_array: Vec<ContentV2> = v1_array.into_iter().map(content_v1_to_v2).collect();
    assert_eq!(v2_array.len(), 2);
}

#[test]
fn test_generate_name_from_file_uri() {
    assert_eq!(generate_resource_name("file:///home/user/document.txt"), "document.txt");
}

#[test]
fn test_generate_name_from_http_url() {
    assert_eq!(generate_resource_name("https://example.com/api/resource.json"), "resource.json");
}

#[test]
fn test_generate_name_from_custom_scheme() {
    assert_eq!(generate_resource_name("custom://unique-id-12345"), "custom://unique-id-12345");
}

#[test]
fn test_generate_name_from_root_path() {
    assert_eq!(generate_resource_name("file:///"), "file:///");
}

#[test]
fn generate_name_keeps_unparseable_uri() {
    assert_eq!(generate_resource_name("not a uri"), "not a uri");
}

#[test]
fn resources_test_v1_to_v2_conversion() {
    let v1 = ResourceContentsV1 {
        uri: "file:///test.txt".to_string(),
        mime_type: Some("text/plain".to_string()),
        text: Some("content".to_string()),
        blob: None,
    };
    let v2 = resource_v1_to_v2(v1.clone());
    assert_eq!(v2.uri, v1.uri);
    assert_eq!(v2.name, "test.txt");
    assert_eq!(v2.mime_type, v1.mime_type);
    assert_eq!(v2.text, v1.text);
    assert_eq!(v2.blob, v1.blob);
    assert_eq!(v2.title, None);
}

#[test]
fn test_v2_to_v1_strips_name_and_title() {
    let v2 = ResourceContentsV2 {
        uri: "file:///doc.md".to_string(),
        name: "doc.md".to_string(),
        title: Some("Documentation".to_string()),
        mime_type: Some("text/markdown".to_string()),
        text: Some("# Title".to_string()),
        blob: None,
    };
    let v1 = resource_v2_to_v1(v2.clone());
    assert_eq!(v1.uri, v2.uri);
    assert_eq!(v1.mime_type, v2.mime_type);
    assert_eq!(v1.text, v2.text);
    assert_eq!(v1.blob, v2.blob);
}

#[test]
fn resources_test_round_trip_preserves_v1_data() {
    let original = ResourceContentsV1 {
        uri: "file:///data.json".to_string(),
        mime_type: Some("application/json".to_string()),
        text: Some(r#"{"key": "value"}"#.to_string()),
        blob: None,
    };
    let v2 = resource_v1_to_v2(original.clone());
    let round_trip = resource_v2_to_v1(v2);
    assert_eq!(round_trip.uri, original.uri);
    assert_eq!(round_trip.mime_type, original.mime_type);
    assert_eq!(round_trip.text, original.text);
    assert_eq!(round_trip.blob, original.blob);
}

#[test]
fn tools_test_v1_to_v2_conversion() {
    let v1 = ToolV1 {
        name: "my-tool".to_string(),
        description: "Does things".to_string(),
        input_schema: parse(r#"{"type": "object"}"#),
    };
    let v2 = tool_v1_to_v2(v1.clone());
    assert_eq!(v2.name, v1.name);
    assert_eq!(v2.description, v1.description);
    assert_eq!(v2.input_schema, v1.input_schema);
    assert_eq!(v2.title, None);
    assert_eq!(v2.output_schema, None);
}

#[test]
fn test_v2_to_v1_strips_extra_fields() {
    let v2 = ToolV2 {
        name: "advanced-tool".to_string(),
        title: Some("Advanced Tool".to_string()),
        description: "Advanced functionality".to_string(),
        input_schema: parse(r#"{"type": "object"}"#),
        output_schema: Some(parse(r#"{"type": "string"}"#)),
    };
    let v1 = tool_v2_to_v1(v2.clone());
    assert_eq!(v1.name, v2.name);
    assert_eq!(v1.description, v2.description);
    assert_eq!(v1.input_schema, v2.input_schema);
}

#[test]
fn tools_test_round_trip_preserves_v1_data() {
    let original = ToolV1 {
        name: "round-trip-tool".to_string(),
        description: "Test round trip".to_string(),
        input_schema: parse(r#"{"type": "object", "properties": {"param": {"type": "string"}}}"#),
    };
    let v2 = tool_v1_to_v2(original.clone());
    let round_trip = tool_v2_to_v1(v2);
    assert_eq!(round_trip.name, original.name);
    assert_eq!(round_trip.description, original.description);
    assert_eq!(round_trip.input_schema, original.input_schema);
}

#[test]
fn test_v2_without_optional_fields() {
    let v2_minimal = ToolV2 {
        name: "minimal".to_string(),
        title: None,
        description: "Minimal tool".to_string(),
        input_schema: parse("{}"),
        output_schema: None,
    };
    let v1 = tool_v2_to_v1(v2_minimal);
    assert_eq!(v1.name, "minimal");
    assert_eq!(v1.description, "Minimal tool");
}
