use mcp_rust_proxy::json::{Json, JsonNumber};
use mcp_rust_proxy::proxy::aggregate::aggregate_results;
use mcp_rust_proxy::proxy::aggregator_tools::{
    aggregator_reply, aggregator_token_budget, get_aggregator_tools, handle_aggregator_tool, select_servers,
};
use mcp_rust_proxy::proxy::error::ProxyError;
use mcp_rust_proxy::proxy::handler::{
    call_target, enabled_gate, extend_list, finish_forward, finish_forward_prompt, finish_list,
    finish_proxy_resource, finish_proxy_tool, finish_templates, incoming_result, outgoing_request, plan_request,
    proxy_tools, readiness_gate, route_read, tokens_argument, HandleStep, ProxyToolFamily, ReadRoute,
    RequestHandler, RequestPlan,
};
use mcp_rust_proxy::proxy::naming::{parse_prefixed_name, prefix_name, prefix_uri};
use mcp_rust_proxy::proxy::prompts::{get_prompt, get_proxy_prompts};
use mcp_rust_proxy::proxy::resources::{
    classify_proxy_resource, get_proxy_resources, handle_proxy_resource, health_summary, ProxyResource,
    ProxyResourceReply,
};
use mcp_rust_proxy::proxy::server_tools::{get_server_tools, handle_server_tool, parse_server_tool, ServerToolCall, ServerToolReply};
use mcp_rust_proxy::proxy::tracing_tools::{
    get_tracing_resources, get_tracing_tools, handle_tracing_resource, handle_tracing_tool, parse_tracing_tool,
    TracingResourceReply, TracingToolCall, TracingToolReply,
};
use mcp_rust_proxy::proxy::{CallParams, ListParams, ReadParams, RequestRouter};
use mcp_rust_proxy::state::ServerState;

fn to_json(v: &serde_json::Value) -> Json {
    match v {
        serde_json::Value::Null => Json::Null,
        serde_json::Value::Bool(b) => Json::Bool(*b),
        serde_json::Value::Number(n) => {
            if let Some(u) = n.as_u64() {
                Json::Number(JsonNumber::PosInt(u))
            } else if let Some(i) = n.as_i64() {
                Json::Number(JsonNumber::NegInt(i))
            } else {
                Json::Number(JsonNumber::Float(n.to_string()))
            }
        }
        serde_json::Value::String(s) => Json::Str(s.clone()),
        serde_json::Value::Array(a) => Json::Array(a.iter().map(to_json).collect()),
        serde_json::Value::Object(o) => {
            Json::Object(o.iter().map(|(k, v)| (k.clone(), to_json(v))).collect())
        }
    }
}

fn parse(text: &str) -> Json {
    to_json(&serde_json::from_str::<serde_json::Value>(text).unwrap())
}

fn s(text: &str) -> Json {
    Json::Str(text.to_string())
}

fn text_of(result: &Json) -> String {
    let content = result.get("content").unwrap().as_array().unwrap();
    content[0].get_str("text").unwrap().to_string()
}

fn invalid(e: ProxyError) -> String {
    match e {
        ProxyError::InvalidRequest(m) => m,
        other => panic!("expected an invalid request, got {:?}", other),
    }
}

#[test]
fn plan_initialize_answers_with_capabilities() {
    match plan_request(&parse(r#"{"jsonrpc": "2.0", "id": 1, "method": "initialize"}"#)).unwrap() {
        RequestPlan::Respond(j) => {
            assert_eq!(j.get("protocolVersion"), Some(&s("2025-03-26")));
            assert_eq!(j.get("serverInfo").unwrap().get("name"), Some(&s("mcp-rust-proxy")));
        }
        other => panic!("unexpected plan {:?}", other),
    }
}

#[test]
fn plan_ping_answers_empty_object() {
    let plan = plan_request(&parse(r#"{"id": 1, "method": "ping"}"#)).unwrap();
    assert_eq!(plan, RequestPlan::Respond(parse("{}")));
}

#[test]
fn plan_refuses_missing_method() {
    assert_eq!(invalid(plan_request(&parse(r#"{"id": 1}"#)).unwrap_err()), "Missing method");
}

#[test]
fn plan_list_errors() {
    assert_eq!(invalid(plan_request(&parse(r#"{"method": "list"}"#)).unwrap_err()), "Missing params");
    assert_eq!(invalid(plan_request(&parse(r#"{"method": "list", "params": {}}"#)).unwrap_err()), "Missing list type");
    assert_eq!(
        invalid(plan_request(&parse(r#"{"method": "list", "params": {"type": "widgets"}}"#)).unwrap_err()),
        "Unknown list type: widgets"
    );
    assert_eq!(
        plan_request(&parse(r#"{"method": "list", "params": {"type": "prompts"}}"#)).unwrap(),
        RequestPlan::List(ListParams::Prompts)
    );
}

#[test]
fn plan_call_routes_by_prefix() {
    let plan = plan_request(&parse(
        r#"{"method": "tools/call", "params": {"name": "mcp__proxy__server__enable", "arguments": {"server_name": "a"}}}"#,
    ))
    .unwrap();
    match plan {
        RequestPlan::ProxyTool { family, tool, arguments } => {
            assert_eq!(family, ProxyToolFamily::Server);
            assert_eq!(tool, "enable");
            assert_eq!(arguments.get("server_name"), Some(&s("a")));
        }
        other => panic!("unexpected plan {:?}", other),
    }
    let plan = plan_request(&parse(r#"{"method": "call", "params": {"tool": "search"}}"#)).unwrap();
    assert_eq!(plan, RequestPlan::Call(CallParams { tool: "search".to_string(), arguments: parse("{}") }));
    let plan = plan_request(&parse(r#"{"method": "tools/call", "params": {"name": "mcp__proxy__tracing__get_trace"}}"#)).unwrap();
    assert!(matches!(plan, RequestPlan::ProxyTool { family: ProxyToolFamily::Tracing, .. }));
    let plan = plan_request(&parse(
        r#"{"method": "tools/call", "params": {"name": "mcp__proxy__aggregator__context_aggregator"}}"#,
    ))
    .unwrap();
    assert!(matches!(plan, RequestPlan::ProxyTool { family: ProxyToolFamily::Aggregator, .. }));
}

#[test]
fn plan_call_errors() {
    assert_eq!(invalid(plan_request(&parse(r#"{"method": "tools/call"}"#)).unwrap_err()), "Missing params");
    assert_eq!(
        invalid(plan_request(&parse(r#"{"method": "tools/call", "params": {"name": 3, "tool": "x"}}"#)).unwrap_err()),
        "Missing tool name"
    );
}

#[test]
fn plan_read_and_lists() {
    assert_eq!(
        plan_request(&parse(r#"{"method": "resources/read", "params": {"uri": "x"}}"#)).unwrap(),
        RequestPlan::Read(parse(r#"{"uri": "x"}"#))
    );
    assert_eq!(invalid(plan_request(&parse(r#"{"method": "read"}"#)).unwrap_err()), "Missing params");
    assert_eq!(plan_request(&parse(r#"{"method": "tools/list"}"#)).unwrap(), RequestPlan::ToolsList(None));
    assert_eq!(plan_request(&parse(r#"{"method": "resources/list"}"#)).unwrap(), RequestPlan::ResourcesList);
    assert_eq!(plan_request(&parse(r#"{"method": "prompts/list"}"#)).unwrap(), RequestPlan::PromptsList);
    assert_eq!(
        plan_request(&parse(r#"{"method": "resources/templates/list", "params": {}}"#)).unwrap(),
        RequestPlan::ResourceTemplates(Some(parse("{}")))
    );
    assert_eq!(
        plan_request(&parse(r#"{"method": "custom/thing"}"#)).unwrap(),
        RequestPlan::Forward { method: "custom/thing".to_string(), params: None }
    );
}

#[test]
fn plan_prompt_get() {
    match plan_request(&parse(r#"{"method": "prompts/get", "params": {"name": "debug-mcp-server"}}"#)).unwrap() {
        RequestPlan::Respond(p) => assert_eq!(p.get("name"), Some(&s("debug-mcp-server"))),
        other => panic!("unexpected plan {:?}", other),
    }
    assert!(matches!(
        plan_request(&parse(r#"{"method": "prompts/get", "params": {"name": "other"}}"#)).unwrap(),
        RequestPlan::ForwardPrompt { .. }
    ));
    assert_eq!(invalid(plan_request(&parse(r#"{"method": "prompts/get"}"#)).unwrap_err()), "Missing prompt name");
}

#[test]
fn handle_request_uses_fresh_cache_only() {
    let mut handler = RequestHandler::new();
    let request = parse(r#"{"id": 9, "method": "tools/list"}"#);
    assert!(matches!(handler.handle_request(&request, 0).unwrap(), HandleStep::Work { .. }));
    let response = handler.finish_tools_list(Some(parse("9")), Ok(parse(r#"{"tools": []}"#)), 1_000);
    let tools = response.result.unwrap();
    assert_eq!(tools.get("tools").unwrap().as_array().unwrap().len(), 12);
    match handler.handle_request(&request, 1_000 + 119_000_000_000).unwrap() {
        HandleStep::Respond(r) => assert_eq!(r.result.unwrap(), tools),
        other => panic!("expected the cached answer, got {:?}", other),
    }
    assert!(matches!(
        handler.handle_request(&request, 1_000 + 120_000_000_000).unwrap(),
        HandleStep::Work { .. }
    ));
    handler.clear_cache();
    assert!(matches!(handler.handle_request(&request, 2_000).unwrap(), HandleStep::Work { .. }));
}

#[test]
fn failed_tools_list_is_an_error_and_not_cached() {
    let mut handler = RequestHandler::new();
    let response = handler.finish_tools_list(None, Err(ProxyError::Timeout), 5);
    let error = response.error.unwrap();
    assert_eq!(error.code, -32603);
    assert_eq!(error.message, "Failed to fetch tools list");
    assert!(handler.tools_list_cache.lookup(6).is_none());
}

#[test]
fn prefixed_names_round_trip() {
    let name = prefix_name("my-server", "search");
    assert_eq!(name, "mcp__proxy__my_server__search");
    assert_eq!(parse_prefixed_name(&name), Some(("my-server".to_string(), "search".to_string())));
    assert_eq!(parse_prefixed_name("mcp__proxy__a__b__c"), Some(("a".to_string(), "b__c".to_string())));
    assert_eq!(parse_prefixed_name("mcp__proxy__nosep"), None);
    assert_eq!(parse_prefixed_name("plain"), None);
    assert_eq!(prefix_uri("my-server", "file:///x"), "mcp__proxy__my_server://file:///x");
}

#[test]
fn aggregate_tools_prefixes_names() {
    let results = vec![
        ("srv-a".to_string(), parse(r#"{"tools": [{"name": "t1", "description": "d"}]}"#)),
        ("b".to_string(), parse(r#"{"tools": [{"name": "t2"}, 5]}"#)),
    ];
    let all = aggregate_results("tools/list", results).unwrap();
    let tools = all.get("tools").unwrap().as_array().unwrap();
    assert_eq!(tools.len(), 3);
    assert_eq!(tools[0].get("name"), Some(&s("mcp__proxy__srv_a__t1")));
    assert_eq!(tools[0].get("originalName"), Some(&s("t1")));
    assert_eq!(tools[0].get("server"), Some(&s("srv-a")));
    assert_eq!(tools[1].get("name"), Some(&s("mcp__proxy__b__t2")));
    assert_eq!(tools[2], Json::Number(JsonNumber::PosInt(5)));
}

#[test]
fn aggregate_resources_adds_tracing_resources() {
    let results = vec![("a".to_string(), parse(r#"{"resources": [{"uri": "file:///x"}]}"#))];
    let all = aggregate_results("resources/list", results).unwrap();
    let resources = all.get("resources").unwrap().as_array().unwrap();
    assert_eq!(resources.len(), 5);
    assert_eq!(resources[0].get("uri"), Some(&s("mcp__proxy__a://file:///x")));
    assert_eq!(resources[0].get("originalUri"), Some(&s("file:///x")));
    assert_eq!(resources[1].get("uri"), Some(&s("trace://quality/top-contexts")));
}

#[test]
fn aggregate_other_and_empty() {
    assert_eq!(
        invalid(aggregate_results("tools/list", vec![]).unwrap_err()),
        "No servers could handle the request"
    );
    let results = vec![("a".to_string(), parse(r#"{"x": 1}"#)), ("b".to_string(), parse(r#"{"x": 2}"#))];
    assert_eq!(aggregate_results("other", results).unwrap(), parse(r#"{"x": 1}"#));
    let prompts = aggregate_results("prompts/list", vec![("p-q".to_string(), parse(r#"{"prompts": [{"name": "n"}]}"#))]).unwrap();
    let list = prompts.get("prompts").unwrap().as_array().unwrap();
    assert_eq!(list[0].get("name"), Some(&s("mcp__proxy__p_q__n")));
}

#[test]
fn listed_tool_is_routed_back() {
    let router = RequestRouter::new();
    let listed = aggregate_results(
        "tools/list",
        vec![("files-server".to_string(), parse(r#"{"tools": [{"name": "read_file"}]}"#))],
    )
    .unwrap();
    let name = listed.get("tools").unwrap().as_array().unwrap()[0].get_str("name").unwrap().to_string();
    assert_eq!(call_target(&router, &name).unwrap(), ("files-server".to_string(), "read_file".to_string()));
}

#[test]
fn call_target_uses_router_otherwise() {
    let mut router = RequestRouter::new();
    router.register_tool("search".to_string(), "s1".to_string());
    assert_eq!(call_target(&router, "search").unwrap(), ("s1".to_string(), "search".to_string()));
    match call_target(&router, "missing").unwrap_err() {
        ProxyError::ServerNotFound(m) => assert_eq!(m, "No server handles tool: missing"),
        other => panic!("unexpected {:?}", other),
    }
}

#[test]
fn disabled_server_is_refused() {
    assert!(enabled_gate("a", None).is_ok());
    assert!(enabled_gate("a", Some(true)).is_ok());
    match enabled_gate("a", Some(false)).unwrap_err() {
        ProxyError::ServerNotFound(m) => {
            assert_eq!(m, "Server 'a' is disabled. Enable it with mcp__proxy__server__enable")
        }
        other => panic!("unexpected {:?}", other),
    }
}

#[test]
fn token_argument_is_read() {
    assert_eq!(tokens_argument(&parse(r#"{"tokens": 500}"#)), Some(500));
    assert_eq!(tokens_argument(&parse(r#"{"tokens": 4294967297}"#)), Some(1));
    assert_eq!(tokens_argument(&parse(r#"{"tokens": "5"}"#)), None);
}

#[test]
fn forwarded_request_and_result() {
    let request = outgoing_request("tools/list", None, None);
    assert_eq!(request.get("jsonrpc"), Some(&s("2.0")));
    assert_eq!(request.get("method"), Some(&s("tools/list")));
    assert_eq!(request.get("params"), Some(&parse("{}")));
    assert_eq!(request.get("id"), Some(&Json::Number(JsonNumber::PosInt(1))));
    assert_eq!(incoming_result(parse(r#"{"result": {"a": 1}}"#), None).unwrap(), parse(r#"{"a": 1}"#));
    assert_eq!(
        invalid(incoming_result(parse(r#"{"error": {"message": "boom"}}"#), None).unwrap_err()),
        "Server error: boom"
    );
    assert_eq!(invalid(incoming_result(parse(r#"{"error": {}}"#), None).unwrap_err()), "Server error: Unknown");
    assert_eq!(invalid(incoming_result(parse(r#"{}"#), None).unwrap_err()), "No result in response");
}

#[test]
fn readiness_gate_without_state_passes() {
    assert!(readiness_gate(None, "s", "tools/list").is_ok());
}

#[test]
fn list_fallbacks() {
    let tools = finish_list(ListParams::Tools, Err(ProxyError::Timeout));
    assert_eq!(tools.get("tools").unwrap().as_array().unwrap().len(), 11);
    let resources = finish_list(ListParams::Resources, Err(ProxyError::Timeout));
    assert_eq!(resources.get("resources").unwrap().as_array().unwrap().len(), 8);
    let prompts = finish_list(ListParams::Prompts, Ok(parse(r#"{"prompts": [{"name": "x"}]}"#)));
    assert_eq!(prompts.get("prompts").unwrap().as_array().unwrap().len(), 6);
    let untouched = finish_list(ListParams::Prompts, Ok(parse(r#"{"other": 1}"#)));
    assert_eq!(untouched, parse(r#"{"other": 1}"#));
}

#[test]
fn extend_list_appends_only_to_arrays() {
    assert_eq!(
        extend_list(parse(r#"{"a": [1], "b": 2}"#), "a", vec![Json::Null]),
        parse(r#"{"a": [1, null], "b": 2}"#)
    );
    assert_eq!(extend_list(parse(r#"{"a": 3}"#), "a", vec![Json::Null]), parse(r#"{"a": 3}"#));
}

#[test]
fn responses_for_outcomes() {
    let r = finish_proxy_tool(Some(parse("1")), Err("bad".to_string()));
    assert_eq!(r.error.unwrap().message, "bad");
    let r = finish_proxy_resource(None, Err(ProxyError::InvalidRequest("x".to_string())));
    assert_eq!(r.error.unwrap().message, "Failed to read proxy resource: x");
    let r = finish_templates(None, Err(ProxyError::Timeout));
    assert_eq!(r.result.unwrap(), parse(r#"{"resourceTemplates": []}"#));
    let r = finish_forward_prompt(None, "p", Err(ProxyError::Timeout));
    let e = r.error.unwrap();
    assert_eq!((e.code, e.message), (-32601, "Prompt not found: p".to_string()));
    let r = finish_forward(None, "m", Err(ProxyError::Timeout));
    assert_eq!(r.error.unwrap().message, "Method not found: m");
}

#[test]
fn read_routes() {
    assert_eq!(route_read(ReadParams { uri: "trace://stats/cache".to_string() }), ReadRoute::Tracing("trace://stats/cache".to_string()));
    assert_eq!(route_read(ReadParams { uri: "proxy://health".to_string() }), ReadRoute::Proxy("proxy://health".to_string()));
    assert_eq!(
        route_read(ReadParams { uri: "file:///a".to_string() }),
        ReadRoute::Backend(ReadParams { uri: "file:///a".to_string() })
    );
}

#[test]
fn proxy_tool_catalogue() {
    let tools = proxy_tools(true);
    assert_eq!(tools.len(), 12);
    let tracing: Vec<String> =
        get_tracing_tools().iter().map(|t| t.get_str("name").unwrap().to_string()).collect();
    assert_eq!(
        tracing,
        vec![
            "mcp__proxy__tracing__get_trace",
            "mcp__proxy__tracing__query_context_impact",
            "mcp__proxy__tracing__get_response_contexts",
            "mcp__proxy__tracing__get_evolution_history",
            "mcp__proxy__tracing__submit_feedback",
        ]
    );
    assert_eq!(get_server_tools()[0].get("name"), Some(&s("mcp__proxy__server__list")));
    assert_eq!(get_aggregator_tools()[0].get("name"), Some(&s("mcp__proxy__aggregator__context_aggregator")));
    assert_eq!(get_tracing_resources().len(), 4);
    assert_eq!(get_proxy_resources()[1].get("name"), Some(&s("metrics")));
    assert_eq!(get_proxy_prompts().len(), 5);
}

#[test]
fn prompts_are_found_by_name() {
    for prompt in get_proxy_prompts() {
        let name = prompt.get_str("name").unwrap().to_string();
        assert_eq!(get_prompt(&name, None), Some(prompt));
    }
    assert_eq!(get_prompt("nope", None), None);
}

#[test]
fn proxy_resource_uris() {
    assert_eq!(classify_proxy_resource("proxy://config").unwrap(), ProxyResource::Config);
    assert_eq!(
        classify_proxy_resource("proxy://logs/srv?lines=5").unwrap(),
        ProxyResource::Logs { server_name: "srv".to_string() }
    );
    assert_eq!(
        classify_proxy_resource("proxy://metrics/srv").unwrap(),
        ProxyResource::ServerMetrics { server_name: "srv".to_string() }
    );
    assert_eq!(
        classify_proxy_resource("proxy://server/srv/capabilities").unwrap(),
        ProxyResource::ServerCapabilities { server_name: "srv".to_string() }
    );
    assert_eq!(
        invalid(classify_proxy_resource("proxy://server/srv").unwrap_err()),
        "Invalid server resource URI. Use proxy://server/{name}/config or proxy://server/{name}/capabilities"
    );
    assert_eq!(
        invalid(classify_proxy_resource("proxy://server/srv/other").unwrap_err()),
        "Unknown server resource type: other. Use 'config' or 'capabilities'"
    );
    assert_eq!(invalid(classify_proxy_resource("proxy://nope").unwrap_err()), "Unknown proxy resource: proxy://nope");
    match handle_proxy_resource("proxy://logs/a").unwrap() {
        ProxyResourceReply::Done(j) => {
            let item = &j.get("contents").unwrap().as_array().unwrap()[0];
            assert_eq!(item.get("mimeType"), Some(&s("text/plain")));
        }
        other => panic!("unexpected {:?}", other),
    }
}

#[test]
fn health_counts() {
    let states = vec![ServerState::Running, ServerState::Failed, ServerState::Stopped, ServerState::Starting, ServerState::Running];
    assert_eq!(health_summary(&states), (2, 1, 1, 5));
}

#[test]
fn server_tools_calls() {
    assert_eq!(parse_server_tool("list", &Json::Null).unwrap(), ServerToolCall::List);
    assert_eq!(parse_server_tool("stop", &parse(r#"{"server_name": "a"}"#)).unwrap(), ServerToolCall::Stop("a".to_string()));
    assert_eq!(parse_server_tool("stop", &parse("{}")).unwrap_err(), "Missing server_name");
    assert_eq!(parse_server_tool("fly", &parse("{}")).unwrap_err(), "Unknown server tool: fly");
    let mut configs = vec![("a".to_string(), false), ("b".to_string(), true)];
    match handle_server_tool("enable", &parse(r#"{"server_name": "a"}"#), &mut configs).unwrap() {
        ServerToolReply::Done(j) => assert_eq!(text_of(&j), "Server a enabled"),
        other => panic!("unexpected {:?}", other),
    }
    assert_eq!(configs, vec![("a".to_string(), true), ("b".to_string(), true)]);
    assert_eq!(
        handle_server_tool("disable", &parse(r#"{"server_name": "zz"}"#), &mut configs).unwrap_err(),
        "Server zz not found"
    );
    match handle_server_tool("restart", &parse(r#"{"server_name": "b"}"#), &mut configs).unwrap() {
        ServerToolReply::Done(j) => assert_eq!(text_of(&j), "Server b restart requested (not yet implemented)"),
        other => panic!("unexpected {:?}", other),
    }
}

#[test]
fn tracing_tool_calls() {
    assert_eq!(
        parse_tracing_tool("get_trace", &parse("{}"), false).unwrap_err(),
        "Context tracing is not enabled"
    );
    assert_eq!(parse_tracing_tool("nope", &parse("{}"), true).unwrap_err(), "Unknown tracing tool: nope");
    assert_eq!(
        parse_tracing_tool("link_responses", &parse(r#"{"parent_response_id": "p"}"#), true).unwrap_err(),
        "Missing child_response_id"
    );
    assert_eq!(
        parse_tracing_tool("submit_feedback", &parse(r#"{"response_id": "r"}"#), true).unwrap_err(),
        "Missing score"
    );
    assert_eq!(
        parse_tracing_tool("get_trace", &parse(r#"{"response_id": "r"}"#), true).unwrap(),
        TracingToolCall::GetTrace { response_id: "r".to_string(), format: "json".to_string() }
    );
    match handle_tracing_tool("start_session", &parse(r#"{"user_query": "q"}"#), true, None).unwrap() {
        TracingToolReply::StartedSession { session_id, reply } => {
            assert!(session_id.starts_with("session_"));
            assert_eq!(session_id.len(), 44);
            assert_eq!(reply.get_str("session_id"), Some(session_id.as_str()));
        }
        other => panic!("unexpected {:?}", other),
    }
    match handle_tracing_tool("end_session", &parse(r#"{"auto_feedback": true}"#), true, Some("s1")).unwrap() {
        TracingToolReply::EndedSession(j) => assert_eq!(
            text_of(&j),
            "Session ended: s1\n\nAuto-feedback: true\n\nUse /mcp-proxy:quality-report to see session impact."
        ),
        other => panic!("unexpected {:?}", other),
    }
    match handle_tracing_tool("record_action", &parse("{}"), true, None).unwrap() {
        TracingToolReply::Done(j) => assert!(text_of(&j).starts_with("Action recorded: unknown\nResponse: none")),
        other => panic!("unexpected {:?}", other),
    }
}

fn to_value(j: &Json) -> serde_json::Value {
    match j {
        Json::Null => serde_json::Value::Null,
        Json::Bool(b) => serde_json::Value::Bool(*b),
        Json::Number(JsonNumber::PosInt(u)) => serde_json::Value::from(*u),
        Json::Number(JsonNumber::NegInt(i)) => serde_json::Value::from(*i),
        Json::Number(JsonNumber::Float(f)) => serde_json::from_str(f).unwrap(),
        Json::Str(t) => serde_json::Value::String(t.clone()),
        Json::Array(a) => serde_json::Value::Array(a.iter().map(to_value).collect()),
        Json::Object(o) => serde_json::Value::Object(o.iter().map(|(k, v)| (k.clone(), to_value(v))).collect()),
    }
}

fn pretty(j: &Json) -> String {
    serde_json::to_string_pretty(&to_value(j)).unwrap()
}

fn contents_of(j: &Json) -> (String, String, String) {
    let item = &j.get("contents").unwrap().as_array().unwrap()[0];
    (
        item.get_str("uri").unwrap().to_string(),
        item.get_str("mimeType").unwrap().to_string(),
        item.get_str("text").unwrap().to_string(),
    )
}

#[test]
fn tracing_resources() {
    assert_eq!(handle_tracing_resource("trace://x", false, pretty).unwrap_err(), "Context tracing is not enabled");
    assert_eq!(handle_tracing_resource("trace://x", true, pretty).unwrap_err(), "Unknown resource URI: trace://x");
    match handle_tracing_resource("trace://stats/cache", true, pretty).unwrap() {
        TracingResourceReply::Done(j) => {
            let (uri, mime, text) = contents_of(&j);
            assert_eq!(uri, "trace://stats/cache");
            assert_eq!(mime, "application/json");
            assert_eq!(
                text,
                "{\n  \"description\": \"Storage cache performance metrics\",\n  \"note\": \"Cache statistics available when using HybridStorage backend\"\n}"
            );
        }
        other => panic!("unexpected {:?}", other),
    }
    match handle_tracing_resource("trace://quality/deprecated-contexts", true, pretty).unwrap() {
        TracingResourceReply::Done(j) => {
            let (uri, mime, text) = contents_of(&j);
            assert_eq!(uri, "trace://quality/deprecated-contexts");
            assert_eq!(mime, "application/json");
            let doc: serde_json::Value = serde_json::from_str(&text).unwrap();
            assert_eq!(doc["threshold"], serde_json::Value::from(-0.5));
            assert_eq!(doc["contexts"], serde_json::Value::Array(Vec::new()));
            assert_eq!(doc["description"], "Low-quality context units flagged for review");
        }
        other => panic!("unexpected {:?}", other),
    }
    match handle_tracing_resource("trace://quality/top-contexts", true, pretty).unwrap() {
        TracingResourceReply::Done(j) => {
            let (uri, _, text) = contents_of(&j);
            assert_eq!(uri, "trace://quality/top-contexts");
            let doc: serde_json::Value = serde_json::from_str(&text).unwrap();
            assert_eq!(doc["threshold"], serde_json::Value::from(0.5));
            assert_eq!(doc["note"], "Full implementation pending - requires storage query by score");
        }
        other => panic!("unexpected {:?}", other),
    }
    assert!(matches!(
        handle_tracing_resource("trace://response/r1", true, pretty).unwrap(),
        TracingResourceReply::Storage(_)
    ));
}

#[test]
fn aggregator_calls() {
    assert_eq!(handle_aggregator_tool("x", &parse("{}"), true, true).unwrap_err(), "Missing query parameter");
    assert_eq!(
        handle_aggregator_tool("x", &parse(r#"{"query": "q"}"#), false, true).unwrap_err(),
        "Plugin manager not initialized"
    );
    assert_eq!(
        handle_aggregator_tool("x", &parse(r#"{"query": "q"}"#), true, false).unwrap_err(),
        "Plugins not configured"
    );
    let req = handle_aggregator_tool("x", &parse(r#"{"query": "q", "servers": ["a", 1, "b"]}"#), true, true).unwrap();
    assert_eq!(req.max_results, 30);
    assert_eq!(req.servers, Some(vec!["a".to_string(), "b".to_string()]));
    assert_eq!(aggregator_token_budget(30), 3000);
    let configs = vec![("a".to_string(), true), ("b".to_string(), false), ("c".to_string(), true)];
    assert_eq!(select_servers(&configs, &req.servers), vec!["a".to_string()]);
    assert_eq!(select_servers(&configs, &None), vec!["a".to_string(), "c".to_string()]);
    assert_eq!(aggregator_reply(false, None, String::new()).unwrap_err(), "Aggregation failed");
    assert_eq!(text_of(&aggregator_reply(true, None, "ctx".to_string()).unwrap()), "ctx");
}
