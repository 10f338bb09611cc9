//! The proxy's context-tracing tools and resources: their definitions, how a
//! call or a read is understood, and the replies that need no stored data.
use vstd::prelude::*;
use crate::json::{Json, JsonNumber, JsonView, items_view, kv, lemma_entries_view_ext, lemma_items_view_ext};
use crate::proxy::content::{create_tool, resource_contents, resource_contents_view, text_content, text_content_view, text_result, text_result_view, tool_view};
use crate::proxy::schema::{decimal, entries0, entries1, entries2, entries3, entries4, enum_property, enum_property_view, integer, object_schema, object_schema_view, property, property_view, strings1, strings2, strings3, strings4};
use crate::json::JsonNumberView;
use crate::text::{concat, concat3, has_prefix, starts_with, str_eq, suffix_from};

verus! {

/// The prefix that marks a context-tracing tool.
pub const TRACING_TOOL_PREFIX: &'static str = "mcp__proxy__tracing__";

/// The scheme prefix of the context-tracing resources.
pub const TRACE_SCHEME: &'static str = "trace://";

/// A resource definition with a display name.
pub open spec fn named_resource_view(uri: Seq<char>, name: Seq<char>, description: Seq<char>) -> JsonView {
    JsonView::Object(
        seq![
            ("uri"@, JsonView::Str(uri)),
            ("name"@, JsonView::Str(name)),
            ("description"@, JsonView::Str(description)),
            ("mimeType"@, JsonView::Str("application/json"@)),
        ],
    )
}

/// The context-tracing resources, in the order they are listed.
pub open spec fn tracing_resources_view() -> Seq<JsonView> {
    seq![
        named_resource_view(
            "trace://quality/top-contexts"@,
            "Top Quality Contexts"@,
            "High-rated context units (aggregate_score > 0.5) - most reliable information sources"@,
        ),
        named_resource_view(
            "trace://quality/deprecated-contexts"@,
            "Deprecated Contexts"@,
            "Low-rated context units (aggregate_score < -0.5) - potentially outdated or incorrect"@,
        ),
        named_resource_view(
            "trace://quality/recent-feedback"@,
            "Recent Feedback"@,
            "Last 20 quality feedback submissions across all responses"@,
        ),
        named_resource_view(
            "trace://stats/cache"@,
            "Cache Statistics"@,
            "Storage cache hit/miss rates and performance metrics"@,
        ),
    ]
}

fn named_resource(uri: &str, name: &str, description: &str) -> (r: Json)
    ensures
        r@ == named_resource_view(uri@, name@, description@),
{
    let entries = vec![
        kv("uri", Json::string(uri)),
        kv("name", Json::string(name)),
        kv("description", Json::string(description)),
        kv("mimeType", Json::string("application/json")),
    ];
    proof {
        lemma_entries_view_ext(entries@, named_resource_view(uri@, name@, description@)->Object_0);
    }
    Json::Object(entries)
}

/// The context-tracing resources.
pub fn get_tracing_resources() -> (r: Vec<Json>)
    ensures
        items_view(r@) == tracing_resources_view(),
{
    let v = vec![
        named_resource(
            "trace://quality/top-contexts",
            "Top Quality Contexts",
            "High-rated context units (aggregate_score > 0.5) - most reliable information sources",
        ),
        named_resource(
            "trace://quality/deprecated-contexts",
            "Deprecated Contexts",
            "Low-rated context units (aggregate_score < -0.5) - potentially outdated or incorrect",
        ),
        named_resource(
            "trace://quality/recent-feedback",
            "Recent Feedback",
            "Last 20 quality feedback submissions across all responses",
        ),
        named_resource(
            "trace://stats/cache",
            "Cache Statistics",
            "Storage cache hit/miss rates and performance metrics",
        ),
    ];
    proof {
        lemma_items_view_ext(v@, tracing_resources_view());
    }
    v
}

/// The context-tracing tools, by the part of the name after the prefix.
pub open spec fn tracing_tool_suffixes() -> Seq<Seq<char>> {
    seq![
        "start_session"@,
        "end_session"@,
        "record_action"@,
        "link_responses"@,
        "get_session_summary"@,
        "get_trace"@,
        "query_context_impact"@,
        "get_response_contexts"@,
        "get_evolution_history"@,
        "submit_feedback"@,
    ]
}

/// What each context-tracing tool is for, in the order of `tracing_tool_suffixes`.
pub open spec fn tracing_tool_descriptions() -> Seq<Seq<char>> {
    seq![
        "Start a new tracking session to group related responses in a conversation"@,
        "End the current tracking session and generate session analytics"@,
        "Record a custom action/event in the tracking system"@,
        "Create a relationship between responses in a conversation chain"@,
        "Get summary of all responses and feedback in a session"@,
        "Get lineage manifest showing which context units influenced a specific AI response"@,
        "Find all responses that used a specific context unit to assess impact of context changes"@,
        "Get all context units that contributed to a specific response"@,
        "Get version history for a context unit to understand how it evolved over time"@,
        "Submit quality feedback on a response that propagates to all contributing context units"@,
    ]
}

/// The input schema of each listed context-tracing tool, by its position in
/// `tracing_tool_suffixes`.
pub open spec fn tracing_tool_schema(i: int) -> JsonView {
    if i == 5 {
        object_schema_view(seq![("response_id"@, property_view("string"@, "The response ID to get lineage for (format: resp_*)"@, Seq::empty())), ("format"@, enum_property_view("string"@, JsonView::Array(seq![JsonView::Str("json"@), JsonView::Str("tree"@), JsonView::Str("compact"@)]), "Output format (default: json)"@, seq![("default"@, JsonView::Str("json"@))]))], seq![("required"@, JsonView::Array(seq![JsonView::Str("response_id"@)]))])
    } else if i == 6 {
        object_schema_view(seq![("context_unit_id"@, property_view("string"@, "The context unit ID to query"@, Seq::empty())), ("min_weight"@, property_view("number"@, "Minimum contribution weight (0.0 to 1.0)"@, seq![("minimum"@, JsonView::Number(JsonNumberView::Float("0.0"@))), ("maximum"@, JsonView::Number(JsonNumberView::Float("1.0"@)))])), ("limit"@, property_view("integer"@, "Maximum number of responses to return"@, seq![("default"@, JsonView::Number(JsonNumberView::PosInt(100)))]))], seq![("required"@, JsonView::Array(seq![JsonView::Str("context_unit_id"@)]))])
    } else if i == 7 {
        object_schema_view(seq![("response_id"@, property_view("string"@, "The response ID to query"@, Seq::empty())), ("type"@, enum_property_view("string"@, JsonView::Array(seq![JsonView::Str("System"@), JsonView::Str("User"@), JsonView::Str("External"@), JsonView::Str("ModelState"@)]), "Filter by context type (optional)"@, Seq::empty()))], seq![("required"@, JsonView::Array(seq![JsonView::Str("response_id"@)]))])
    } else if i == 8 {
        object_schema_view(seq![("context_unit_id"@, property_view("string"@, "The context unit ID (any version in the chain)"@, Seq::empty()))], seq![("required"@, JsonView::Array(seq![JsonView::Str("context_unit_id"@)]))])
    } else {
        object_schema_view(seq![("response_id"@, property_view("string"@, "The response ID to provide feedback on"@, Seq::empty())), ("score"@, property_view("number"@, "Quality score from -1.0 (poor) to 1.0 (excellent)"@, seq![("minimum"@, JsonView::Number(JsonNumberView::Float("-1.0"@))), ("maximum"@, JsonView::Number(JsonNumberView::Float("1.0"@)))])), ("feedback_text"@, property_view("string"@, "Optional comment explaining the feedback"@, Seq::empty())), ("user_id"@, property_view("string"@, "Optional user identifier"@, Seq::empty()))], seq![("required"@, JsonView::Array(seq![JsonView::Str("response_id"@), JsonView::Str("score"@)]))])
    }
}

/// The definition of the `i`-th context-tracing tool.
pub open spec fn tracing_tool_view(i: int) -> JsonView {
    tool_view(TRACING_TOOL_PREFIX@ + tracing_tool_suffixes()[i], tracing_tool_descriptions()[i], tracing_tool_schema(i))
}

fn tracing_tool(suffix: &str, description: &str, schema: Json) -> (r: Json)
    ensures
        r@ == tool_view(TRACING_TOOL_PREFIX@ + suffix@, description@, schema@),
{
    create_tool(concat(TRACING_TOOL_PREFIX, suffix), description, schema)
}

fn get_trace_schema() -> (r: Json)
    ensures
        r@ == tracing_tool_schema(5),
{
    object_schema(
        entries2(kv("response_id", property("string", "The response ID to get lineage for (format: resp_*)", entries0())), kv("format", enum_property("string", strings3("json", "tree", "compact"), "Output format (default: json)", entries1(kv("default", Json::string("json")))))),
        entries1(kv("required", strings1("response_id"))),
    )
}

fn query_context_impact_schema() -> (r: Json)
    ensures
        r@ == tracing_tool_schema(6),
{
    object_schema(
        entries3(kv("context_unit_id", property("string", "The context unit ID to query", entries0())), kv("min_weight", property("number", "Minimum contribution weight (0.0 to 1.0)", entries2(kv("minimum", decimal("0.0")), kv("maximum", decimal("1.0"))))), kv("limit", property("integer", "Maximum number of responses to return", entries1(kv("default", integer(100)))))),
        entries1(kv("required", strings1("context_unit_id"))),
    )
}

fn get_response_contexts_schema() -> (r: Json)
    ensures
        r@ == tracing_tool_schema(7),
{
    object_schema(
        entries2(kv("response_id", property("string", "The response ID to query", entries0())), kv("type", enum_property("string", strings4("System", "User", "External", "ModelState"), "Filter by context type (optional)", entries0()))),
        entries1(kv("required", strings1("response_id"))),
    )
}

fn get_evolution_history_schema() -> (r: Json)
    ensures
        r@ == tracing_tool_schema(8),
{
    object_schema(
        entries1(kv("context_unit_id", property("string", "The context unit ID (any version in the chain)", entries0()))),
        entries1(kv("required", strings1("context_unit_id"))),
    )
}

fn submit_feedback_schema() -> (r: Json)
    ensures
        r@ == tracing_tool_schema(9),
{
    object_schema(
        entries4(kv("response_id", property("string", "The response ID to provide feedback on", entries0())), kv("score", property("number", "Quality score from -1.0 (poor) to 1.0 (excellent)", entries2(kv("minimum", decimal("-1.0")), kv("maximum", decimal("1.0"))))), kv("feedback_text", property("string", "Optional comment explaining the feedback", entries0())), kv("user_id", property("string", "Optional user identifier", entries0()))),
        entries1(kv("required", strings2("response_id", "score"))),
    )
}

/// The context-tracing tools that are listed: get_trace,
/// query_context_impact, get_response_contexts, get_evolution_history and
/// submit_feedback, in that order. The session tools (the first five of
/// `tracing_tool_suffixes`) are handled when called but not listed.
pub open spec fn listed_tracing_tools_view() -> Seq<JsonView> {
    Seq::new(5, |i: int| tracing_tool_view(i + 5))
}

/// The definitions of the listed context-tracing tools.
pub fn get_tracing_tools() -> (r: Vec<Json>)
    ensures
        items_view(r@) == listed_tracing_tools_view(),
{
    let tools = vec![
        tracing_tool("get_trace", "Get lineage manifest showing which context units influenced a specific AI response", get_trace_schema()),
        tracing_tool("query_context_impact", "Find all responses that used a specific context unit to assess impact of context changes", query_context_impact_schema()),
        tracing_tool("get_response_contexts", "Get all context units that contributed to a specific response", get_response_contexts_schema()),
        tracing_tool("get_evolution_history", "Get version history for a context unit to understand how it evolved over time", get_evolution_history_schema()),
        tracing_tool("submit_feedback", "Submit quality feedback on a response that propagates to all contributing context units", submit_feedback_schema()),
    ];
    proof {
        lemma_items_view_ext(tools@, listed_tracing_tools_view());
    }
    tools
}

/// Whether `c` is a lower-case hexadecimal digit.
pub open spec fn is_hex_lower(c: char) -> bool {
    ('0' <= c && c <= '9') || ('a' <= c && c <= 'f')
}

/// Whether `s` is a version-4 UUID in the hyphenated lower-case form: 36
/// characters, hyphens at positions 8, 13, 18 and 23, hexadecimal digits
/// elsewhere, the version digit `4` at position 14 and the variant digit
/// (8, 9, a or b) at position 19.
pub open spec fn is_uuid_v4_text(s: Seq<char>) -> bool {
    &&& s.len() == 36
    &&& s[8] == '-' && s[13] == '-' && s[18] == '-' && s[23] == '-'
    &&& forall|i: int| 0 <= i < 36 && i != 8 && i != 13 && i != 18 && i != 23 ==> is_hex_lower(#[trigger] s[i])
    &&& s[14] == '4'
    &&& (s[19] == '8' || s[19] == '9' || s[19] == 'a' || s[19] == 'b')
}

/// Calls `uuid::Uuid::new_v4` and formats it with `to_string`: a random
/// version-4 UUID (RFC 4122 variant) in the hyphenated lower-case form.
/// Which UUID comes back is left open.
#[verifier::external_body]
fn new_uuid_text() -> (r: String)
    ensures
        is_uuid_v4_text(r@),
{
    uuid::Uuid::new_v4().to_string()
}

/// A fresh session identifier: `session_` followed by a random UUID.
pub fn new_session_id() -> (r: String)
    ensures
        r@.len() == 44,
        r@.subrange(0, 8) == "session_"@,
        is_uuid_v4_text(r@.subrange(8, 44)),
{
    let id = new_uuid_text();
    proof {
        reveal_strlit("session_");
    }
    let r = concat("session_", id.as_str());
    proof {
        assert(r@.subrange(0, 8) =~= "session_"@);
        assert(r@.subrange(8, 44) =~= id@);
    }
    r
}

/// A call of a context-tracing tool, as the proxy reads it.
#[derive(Debug, PartialEq, Eq)]
pub enum TracingToolCall {
    StartSession { session_id: Option<String>, user_query: Option<String> },
    EndSession { session_id: Option<String>, auto_feedback: bool },
    RecordAction { action_type: String, response_id: Option<String> },
    LinkResponses { parent: String, child: String, relationship: String },
    GetSessionSummary { session_id: String },
    GetTrace { response_id: String, format: String },
    QueryContextImpact { context_unit_id: String, min_weight: Option<JsonNumber>, limit: Option<u64> },
    GetResponseContexts { response_id: String, context_type: Option<String> },
    GetEvolutionHistory { context_unit_id: String },
    SubmitFeedback {
        response_id: String,
        score: JsonNumber,
        feedback_text: Option<String>,
        user_id: Option<String>,
    },
}

/// The view of an optional string.
pub open spec fn opt_text(o: Option<String>) -> Option<Seq<char>> {
    match o {
        Some(s) => Some(s@),
        None => None,
    }
}

/// The number stored under `key`, when there is one.
pub open spec fn get_number(j: JsonView, key: Seq<char>) -> Option<crate::json::JsonNumberView> {
    match j.get(key) {
        Some(JsonView::Number(n)) => Some(n),
        _ => None,
    }
}

/// The non-negative integer stored under `key`, when there is one.
pub open spec fn get_u64(j: JsonView, key: Seq<char>) -> Option<u64> {
    match j.get(key) {
        Some(JsonView::Number(crate::json::JsonNumberView::PosInt(n))) => Some(n),
        _ => None,
    }
}

/// The context types a context query may be narrowed to.
pub open spec fn is_context_type(s: Seq<char>) -> bool {
    s == "System"@ || s == "User"@ || s == "External"@ || s == "ModelState"@
}

/// Why a context-tracing tool call is refused, if it is.
pub open spec fn tracing_call_error(enabled: bool, tool: Seq<char>, args: JsonView) -> Option<Seq<char>> {
    if !enabled {
        Some("Context tracing is not enabled"@)
    } else if !tracing_tool_suffixes().contains(tool) {
        Some("Unknown tracing tool: "@ + tool)
    } else if tool == "link_responses"@ && args.get_str("parent_response_id"@) is None {
        Some("Missing parent_response_id"@)
    } else if tool == "link_responses"@ && args.get_str("child_response_id"@) is None {
        Some("Missing child_response_id"@)
    } else if tool == "get_session_summary"@ && args.get_str("session_id"@) is None {
        Some("Missing session_id"@)
    } else if (tool == "get_trace"@ || tool == "get_response_contexts"@ || tool == "submit_feedback"@)
        && args.get_str("response_id"@) is None {
        Some("Missing response_id"@)
    } else if (tool == "query_context_impact"@ || tool == "get_evolution_history"@) && args.get_str(
        "context_unit_id"@,
    ) is None {
        Some("Missing context_unit_id"@)
    } else if tool == "submit_feedback"@ && get_number(args, "score"@) is None {
        Some("Missing score"@)
    } else {
        None
    }
}

/// `call` is what a context-tracing call of `tool` with `args` reads as.
pub open spec fn tracing_call_reads_as(tool: Seq<char>, args: JsonView, call: TracingToolCall) -> bool {
    match call {
        TracingToolCall::StartSession { session_id, user_query } => tool == "start_session"@
            && opt_text(session_id) == args.get_str("session_id"@) && opt_text(user_query) == args.get_str(
            "user_query"@,
        ),
        TracingToolCall::EndSession { session_id, auto_feedback } => tool == "end_session"@
            && opt_text(session_id) == args.get_str("session_id"@) && auto_feedback == (args.get(
            "auto_feedback"@,
        ) == Some(JsonView::Bool(true))),
        TracingToolCall::RecordAction { action_type, response_id } => tool == "record_action"@
            && action_type@ == (match args.get_str("action_type"@) {
            Some(a) => a,
            None => "unknown"@,
        }) && opt_text(response_id) == args.get_str("response_id"@),
        TracingToolCall::LinkResponses { parent, child, relationship } => tool == "link_responses"@
            && Some(parent@) == args.get_str("parent_response_id"@) && Some(child@) == args.get_str(
            "child_response_id"@,
        ) && relationship@ == (match args.get_str("relationship_type"@) {
            Some(t) => t,
            None => "builds_on"@,
        }),
        TracingToolCall::GetSessionSummary { session_id } => tool == "get_session_summary"@ && Some(
            session_id@,
        ) == args.get_str("session_id"@),
        TracingToolCall::GetTrace { response_id, format } => tool == "get_trace"@ && Some(response_id@)
            == args.get_str("response_id"@) && format@ == (match args.get_str("format"@) {
            Some(f) => f,
            None => "json"@,
        }),
        TracingToolCall::QueryContextImpact { context_unit_id, min_weight, limit } => tool
            == "query_context_impact"@ && Some(context_unit_id@) == args.get_str("context_unit_id"@)
            && (match min_weight {
            Some(w) => get_number(args, "min_weight"@) == Some(w@),
            None => get_number(args, "min_weight"@) is None,
        }) && limit == get_u64(args, "limit"@),
        TracingToolCall::GetResponseContexts { response_id, context_type } => tool
            == "get_response_contexts"@ && Some(response_id@) == args.get_str("response_id"@)
            && opt_text(context_type) == (match args.get_str("type"@) {
            Some(t) => if is_context_type(t) {
                Some(t)
            } else {
                None
            },
            None => None,
        }),
        TracingToolCall::GetEvolutionHistory { context_unit_id } => tool == "get_evolution_history"@
            && Some(context_unit_id@) == args.get_str("context_unit_id"@),
        TracingToolCall::SubmitFeedback { response_id, score, feedback_text, user_id } => tool
            == "submit_feedback"@ && Some(response_id@) == args.get_str("response_id"@) && get_number(
            args,
            "score"@,
        ) == Some(score@) && opt_text(feedback_text) == args.get_str("feedback_text"@) && opt_text(
            user_id,
        ) == args.get_str("user_id"@),
    }
}

fn opt_string(o: Option<&str>) -> (r: Option<String>)
    ensures
        match o {
            Some(s) => opt_text(r) == Some(s@),
            None => r is None,
        },
{
    match o {
        Some(s) => Some(s.to_string()),
        None => None,
    }
}

fn number_copy(n: &JsonNumber) -> (r: JsonNumber)
    ensures
        r@ == n@,
{
    match n {
        JsonNumber::PosInt(u) => JsonNumber::PosInt(*u),
        JsonNumber::NegInt(i) => JsonNumber::NegInt(*i),
        JsonNumber::Float(s) => JsonNumber::Float(s.clone()),
    }
}

fn get_number_exec(args: &Json, key: &str) -> (r: Option<JsonNumber>)
    ensures
        match r {
            Some(n) => get_number(args@, key@) == Some(n@),
            None => get_number(args@, key@) is None,
        },
{
    match args.get(key) {
        Some(Json::Number(n)) => Some(number_copy(n)),
        _ => None,
    }
}

fn get_u64_exec(args: &Json, key: &str) -> (r: Option<u64>)
    ensures
        r == get_u64(args@, key@),
{
    match args.get(key) {
        Some(Json::Number(JsonNumber::PosInt(n))) => Some(*n),
        _ => None,
    }
}

fn required_str(args: &Json, key: &str, missing: &str) -> (r: Result<String, String>)
    ensures
        match r {
            Ok(s) => args@.get_str(key@) == Some(s@),
            Err(e) => args@.get_str(key@) is None && e@ == missing@,
        },
{
    match args.get_str(key) {
        Some(s) => Ok(s.to_string()),
        None => Err(missing.to_string()),
    }
}

fn or_default(o: Option<&str>, default: &str) -> (r: String)
    ensures
        r@ == (match o {
            Some(s) => s@,
            None => default@,
        }),
{
    match o {
        Some(s) => s.to_string(),
        None => default.to_string(),
    }
}

/// The names of the tracing tools differ from one another.
proof fn lemma_tracing_names_distinct()
    ensures
        "start_session"@.len() == 13 && "start_session"@[0] == 's',
        "end_session"@.len() == 11,
        "record_action"@.len() == 13 && "record_action"@[0] == 'r',
        "link_responses"@.len() == 14,
        "get_session_summary"@.len() == 19,
        "get_trace"@.len() == 9,
        "query_context_impact"@.len() == 20,
        "get_response_contexts"@.len() == 21 && "get_response_contexts"@[4] == 'r',
        "get_evolution_history"@.len() == 21 && "get_evolution_history"@[4] == 'e',
        "submit_feedback"@.len() == 15,
{
    reveal_strlit("start_session");
    reveal_strlit("end_session");
    reveal_strlit("record_action");
    reveal_strlit("link_responses");
    reveal_strlit("get_session_summary");
    reveal_strlit("get_trace");
    reveal_strlit("query_context_impact");
    reveal_strlit("get_response_contexts");
    reveal_strlit("get_evolution_history");
    reveal_strlit("submit_feedback");
}

/// Reads a call of the context-tracing tool `tool` (the part of its name
/// after the prefix); `enabled` says whether context tracing is on.
pub fn parse_tracing_tool(tool: &str, args: &Json, enabled: bool) -> (r: Result<TracingToolCall, String>)
    ensures
        match r {
            Ok(c) => tracing_call_error(enabled, tool@, args@) is None && tracing_call_reads_as(
                tool@,
                args@,
                c,
            ),
            Err(e) => tracing_call_error(enabled, tool@, args@) == Some(e@),
        },
{
    if !enabled {
        return Err("Context tracing is not enabled".to_string());
    }
    let ghost suffixes = tracing_tool_suffixes();
    proof {
        lemma_tracing_names_distinct();
    }
    if str_eq(tool, "start_session") {
        assert(suffixes[0] == tool@);
        return Ok(
            TracingToolCall::StartSession {
                session_id: opt_string(args.get_str("session_id")),
                user_query: opt_string(args.get_str("user_query")),
            },
        );
    }
    if str_eq(tool, "end_session") {
        assert(suffixes[1] == tool@);
        let auto_feedback = match args.get("auto_feedback") {
            Some(Json::Bool(b)) => *b,
            _ => false,
        };
        return Ok(
            TracingToolCall::EndSession { session_id: opt_string(args.get_str("session_id")), auto_feedback },
        );
    }
    if str_eq(tool, "record_action") {
        assert(suffixes[2] == tool@);
        return Ok(
            TracingToolCall::RecordAction {
                action_type: or_default(args.get_str("action_type"), "unknown"),
                response_id: opt_string(args.get_str("response_id")),
            },
        );
    }
    if str_eq(tool, "link_responses") {
        assert(suffixes[3] == tool@);
        let parent = match required_str(args, "parent_response_id", "Missing parent_response_id") {
            Ok(v) => v,
            Err(e) => {
                return Err(e);
            },
        };
        let child = match required_str(args, "child_response_id", "Missing child_response_id") {
            Ok(v) => v,
            Err(e) => {
                return Err(e);
            },
        };
        return Ok(
            TracingToolCall::LinkResponses {
                parent,
                child,
                relationship: or_default(args.get_str("relationship_type"), "builds_on"),
            },
        );
    }
    if str_eq(tool, "get_session_summary") {
        assert(suffixes[4] == tool@);
        let session_id = match required_str(args, "session_id", "Missing session_id") {
            Ok(v) => v,
            Err(e) => {
                return Err(e);
            },
        };
        return Ok(TracingToolCall::GetSessionSummary { session_id });
    }
    if str_eq(tool, "get_trace") {
        assert(suffixes[5] == tool@);
        let response_id = match required_str(args, "response_id", "Missing response_id") {
            Ok(v) => v,
            Err(e) => {
                return Err(e);
            },
        };
        return Ok(TracingToolCall::GetTrace { response_id, format: or_default(args.get_str("format"), "json") });
    }
    if str_eq(tool, "query_context_impact") {
        assert(suffixes[6] == tool@);
        let context_unit_id = match required_str(args, "context_unit_id", "Missing context_unit_id") {
            Ok(v) => v,
            Err(e) => {
                return Err(e);
            },
        };
        return Ok(
            TracingToolCall::QueryContextImpact {
                context_unit_id,
                min_weight: get_number_exec(args, "min_weight"),
                limit: get_u64_exec(args, "limit"),
            },
        );
    }
    if str_eq(tool, "get_response_contexts") {
        assert(suffixes[7] == tool@);
        let response_id = match required_str(args, "response_id", "Missing response_id") {
            Ok(v) => v,
            Err(e) => {
                return Err(e);
            },
        };
        let context_type = match args.get_str("type") {
            Some(t) => {
                if str_eq(t, "System") || str_eq(t, "User") || str_eq(t, "External") || str_eq(t, "ModelState") {
                    Some(t.to_string())
                } else {
                    None
                }
            },
            None => None,
        };
        return Ok(TracingToolCall::GetResponseContexts { response_id, context_type });
    }
    if str_eq(tool, "get_evolution_history") {
        assert(suffixes[8] == tool@);
        let context_unit_id = match required_str(args, "context_unit_id", "Missing context_unit_id") {
            Ok(v) => v,
            Err(e) => {
                return Err(e);
            },
        };
        return Ok(TracingToolCall::GetEvolutionHistory { context_unit_id });
    }
    if str_eq(tool, "submit_feedback") {
        assert(suffixes[9] == tool@);
        let response_id = match required_str(args, "response_id", "Missing response_id") {
            Ok(v) => v,
            Err(e) => {
                return Err(e);
            },
        };
        let score = match get_number_exec(args, "score") {
            Some(n) => n,
            None => {
                return Err("Missing score".to_string());
            },
        };
        return Ok(
            TracingToolCall::SubmitFeedback {
                response_id,
                score,
                feedback_text: opt_string(args.get_str("feedback_text")),
                user_id: opt_string(args.get_str("user_id")),
            },
        );
    }
    proof {
        assert(!suffixes.contains(tool@));
    }
    Err(concat("Unknown tracing tool: ", tool))
}

/// The text of a started session's reply.
pub open spec fn start_session_text(session_id: Seq<char>, user_query: Option<Seq<char>>) -> Seq<char> {
    "Session started: "@ + session_id
        + "\n\nAll tool calls in this conversation will be grouped under this session.\nUser query: "@
        + match user_query {
        Some(q) => q,
        None => "Not provided"@,
    }
}

/// The reply to `start_session`: the text, and the session's identifier.
pub fn start_session_reply(session_id: String, user_query: Option<&str>) -> (r: Json)
    ensures
        r@ == JsonView::Object(
            seq![
                ("content"@, text_content_view(start_session_text(session_id@, opt_str_view(user_query)))),
                ("session_id"@, JsonView::Str(session_id@)),
            ],
        ),
{
    let ghost sv = session_id@;
    let head = concat3(
        "Session started: ",
        session_id.as_str(),
        "\n\nAll tool calls in this conversation will be grouped under this session.\nUser query: ",
    );
    let query = match user_query {
        Some(q) => q,
        None => "Not provided",
    };
    let text = concat(head.as_str(), query);
    let ghost tv = text@;
    let entries = vec![kv("content", text_content(text)), kv("session_id", Json::Str(session_id))];
    proof {
        lemma_entries_view_ext(
            entries@,
            seq![("content"@, text_content_view(tv)), ("session_id"@, JsonView::Str(sv))],
        );
    }
    Json::Object(entries)
}

/// The view of an optional string slice.
pub open spec fn opt_str_view(o: Option<&str>) -> Option<Seq<char>> {
    match o {
        Some(s) => Some(s@),
        None => None,
    }
}

/// The text of `true` or `false`.
pub open spec fn bool_text(b: bool) -> Seq<char> {
    if b { "true"@ } else { "false"@ }
}

/// The reply to `end_session`. The session is the one named in the call,
/// else the one recorded as current (`current`), else `unknown`.
pub fn end_session_reply(session_id: Option<&str>, current: Option<&str>, auto_feedback: bool) -> (r: Json)
    ensures
        r@ == text_result_view(
            "Session ended: "@ + (match session_id {
                Some(s) => s@,
                None => match current {
                    Some(c) => c@,
                    None => "unknown"@,
                },
            }) + "\n\nAuto-feedback: "@ + bool_text(auto_feedback)
                + "\n\nUse /mcp-proxy:quality-report to see session impact."@,
        ),
{
    let id = match session_id {
        Some(s) => s,
        None => match current {
            Some(c) => c,
            None => "unknown",
        },
    };
    let flag = if auto_feedback { "true" } else { "false" };
    let head = concat3("Session ended: ", id, "\n\nAuto-feedback: ");
    text_result(concat3(head.as_str(), flag, "\n\nUse /mcp-proxy:quality-report to see session impact."))
}

/// The reply to `record_action`, which only acknowledges the action.
pub fn record_action_reply(action_type: &str, response_id: Option<&str>) -> (r: Json)
    ensures
        r@ == text_result_view(
            "Action recorded: "@ + action_type@ + "\nResponse: "@ + (match response_id {
                Some(s) => s@,
                None => "none"@,
            }) + "\n\nThis feature is currently logging-only. Full action tracking coming soon."@,
        ),
{
    let resp = match response_id {
        Some(s) => s,
        None => "none",
    };
    let head = concat3("Action recorded: ", action_type, "\nResponse: ");
    text_result(
        concat3(
            head.as_str(),
            resp,
            "\n\nThis feature is currently logging-only. Full action tracking coming soon.",
        ),
    )
}

/// The reply to `link_responses`, which only describes the link.
pub fn link_responses_reply(parent: &str, relationship: &str, child: &str) -> (r: Json)
    ensures
        r@ == text_result_view(
            "Response relationship created:\n  "@ + parent@ + " --["@ + relationship@ + "]--> "@ + child@
                + "\n\nThis creates a conversation chain showing how responses build on each other.\n\nFull relationship storage coming soon."@,
        ),
{
    let a = concat3("Response relationship created:\n  ", parent, " --[");
    let b = concat3(a.as_str(), relationship, "]--> ");
    text_result(
        concat3(
            b.as_str(),
            child,
            "\n\nThis creates a conversation chain showing how responses build on each other.\n\nFull relationship storage coming soon.",
        ),
    )
}

/// The reply to `get_session_summary`, which names the session only.
pub fn session_summary_reply(session_id: &str) -> (r: Json)
    ensures
        r@ == text_result_view(
            "Session Summary: "@ + session_id@
                + "\n\nThis feature requires session-response mapping in storage.\nComing soon: Full session analytics with response chains, feedback trends, and quality metrics."@,
        ),
{
    text_result(
        concat(
            concat("Session Summary: ", session_id).as_str(),
            "\n\nThis feature requires session-response mapping in storage.\nComing soon: Full session analytics with response chains, feedback trends, and quality metrics.",
        ),
    )
}

/// What a `trace://` URI asks for.
#[derive(Debug, PartialEq, Eq)]
pub enum TracingResource {
    TopContexts,
    DeprecatedContexts,
    RecentFeedback,
    CacheStats,
    /// `trace://response/{id}`: the lineage of a response.
    Response(String),
    /// `trace://context/{id}`: one context unit.
    Context(String),
    /// `trace://evolution/{id}`: the versions of a context unit.
    Evolution(String),
}

/// The view of a `TracingResource`: a tag and the identifier it names.
pub open spec fn tracing_resource_view(r: TracingResource) -> (int, Seq<char>) {
    match r {
        TracingResource::TopContexts => (0, Seq::empty()),
        TracingResource::DeprecatedContexts => (1, Seq::empty()),
        TracingResource::RecentFeedback => (2, Seq::empty()),
        TracingResource::CacheStats => (3, Seq::empty()),
        TracingResource::Response(id) => (4, id@),
        TracingResource::Context(id) => (5, id@),
        TracingResource::Evolution(id) => (6, id@),
    }
}

/// How a `trace://` URI is read; `enabled` says whether context tracing is on.
pub open spec fn tracing_resource_spec(uri: Seq<char>, enabled: bool) -> Result<(int, Seq<char>), Seq<char>> {
    if !enabled {
        Err("Context tracing is not enabled"@)
    } else if uri == "trace://quality/top-contexts"@ {
        Ok((0, Seq::empty()))
    } else if uri == "trace://quality/deprecated-contexts"@ {
        Ok((1, Seq::empty()))
    } else if uri == "trace://quality/recent-feedback"@ {
        Ok((2, Seq::empty()))
    } else if uri == "trace://stats/cache"@ {
        Ok((3, Seq::empty()))
    } else if has_prefix(uri, "trace://response/"@) {
        Ok((4, uri.subrange(17, uri.len() as int)))
    } else if has_prefix(uri, "trace://context/"@) {
        Ok((5, uri.subrange(16, uri.len() as int)))
    } else if has_prefix(uri, "trace://evolution/"@) {
        Ok((6, uri.subrange(18, uri.len() as int)))
    } else {
        Err("Unknown resource URI: "@ + uri)
    }
}

/// Reads a `trace://` URI.
pub fn classify_tracing_resource(uri: &str, enabled: bool) -> (r: Result<TracingResource, String>)
    ensures
        match r {
            Ok(t) => tracing_resource_spec(uri@, enabled) == Ok::<_, Seq<char>>(tracing_resource_view(t)),
            Err(e) => tracing_resource_spec(uri@, enabled) == Err::<(int, Seq<char>), _>(e@),
        },
{
    if !enabled {
        return Err("Context tracing is not enabled".to_string());
    }
    if str_eq(uri, "trace://quality/top-contexts") {
        return Ok(TracingResource::TopContexts);
    }
    if str_eq(uri, "trace://quality/deprecated-contexts") {
        return Ok(TracingResource::DeprecatedContexts);
    }
    if str_eq(uri, "trace://quality/recent-feedback") {
        return Ok(TracingResource::RecentFeedback);
    }
    if str_eq(uri, "trace://stats/cache") {
        return Ok(TracingResource::CacheStats);
    }
    proof {
        reveal_strlit("trace://response/");
        reveal_strlit("trace://context/");
        reveal_strlit("trace://evolution/");
    }
    if starts_with(uri, "trace://response/") {
        return Ok(TracingResource::Response(suffix_from(uri, 17)));
    }
    if starts_with(uri, "trace://context/") {
        return Ok(TracingResource::Context(suffix_from(uri, 16)));
    }
    if starts_with(uri, "trace://evolution/") {
        return Ok(TracingResource::Evolution(suffix_from(uri, 18)));
    }
    Err(concat("Unknown resource URI: ", uri))
}

/// The document of a quality resource: what it lists, the score threshold
/// (as decimal text), no contexts yet, and a note.
pub open spec fn quality_view(description: Seq<char>, threshold: Seq<char>) -> JsonView {
    JsonView::Object(
        seq![
            ("description"@, JsonView::Str(description)),
            ("threshold"@, JsonView::Number(JsonNumberView::Float(threshold))),
            ("contexts"@, JsonView::Array(Seq::empty())),
            ("note"@, JsonView::Str("Full implementation pending - requires storage query by score"@)),
        ],
    )
}

fn quality_document(description: &str, threshold: &str) -> (r: Json)
    ensures
        r@ == quality_view(description@, threshold@),
{
    let contexts: Vec<Json> = Vec::new();
    let e = vec![
        kv("description", Json::string(description)),
        kv("threshold", decimal(threshold)),
        kv("contexts", Json::Array(contexts)),
        kv("note", Json::string("Full implementation pending - requires storage query by score")),
    ];
    proof {
        crate::json::lemma_items_view(contexts@);
        lemma_entries_view_ext(e@, quality_view(description@, threshold@)->Object_0);
    }
    Json::Object(e)
}

/// The document of the cache statistics resource.
pub open spec fn cache_stats_view() -> JsonView {
    JsonView::Object(
        seq![
            ("description"@, JsonView::Str("Storage cache performance metrics"@)),
            ("note"@, JsonView::Str("Cache statistics available when using HybridStorage backend"@)),
        ],
    )
}

/// The document a fixed tracing resource holds: top contexts (tag 0),
/// deprecated contexts (tag 1) and cache statistics (tag 3).
pub open spec fn fixed_tracing_view(tag: int) -> JsonView {
    if tag == 0 {
        quality_view("High-quality context units"@, "0.5"@)
    } else if tag == 1 {
        quality_view("Low-quality context units flagged for review"@, "-0.5"@)
    } else {
        cache_stats_view()
    }
}

/// The document of one of the fixed tracing resources that need no stored
/// data; `None` for the others.
pub fn fixed_tracing_document(resource: &TracingResource) -> (r: Option<Json>)
    ensures
        match resource {
            TracingResource::TopContexts => (r matches Some(j) && j@ == fixed_tracing_view(0)),
            TracingResource::DeprecatedContexts => (r matches Some(j) && j@ == fixed_tracing_view(1)),
            TracingResource::CacheStats => (r matches Some(j) && j@ == fixed_tracing_view(3)),
            _ => r is None,
        },
{
    match resource {
        TracingResource::TopContexts => Some(quality_document("High-quality context units", "0.5")),
        TracingResource::DeprecatedContexts => Some(
            quality_document("Low-quality context units flagged for review", "-0.5"),
        ),
        TracingResource::CacheStats => {
            let e = vec![
                kv("description", Json::string("Storage cache performance metrics")),
                kv("note", Json::string("Cache statistics available when using HybridStorage backend")),
            ];
            proof {
                lemma_entries_view_ext(e@, cache_stats_view()->Object_0);
            }
            Some(Json::Object(e))
        },
        _ => None,
    }
}

/// What handling a context-tracing tool comes to.
#[derive(Debug, PartialEq, Eq)]
pub enum TracingToolReply {
    /// The reply is ready.
    Done(Json),
    /// A session was started: the caller records `session_id` as the
    /// current session, and replies with `reply`.
    StartedSession { session_id: String, reply: Json },
    /// The session ended: the caller forgets the current session, and
    /// replies with `reply`.
    EndedSession(Json),
    /// The call needs the stored tracing data, which the caller consults.
    Storage(TracingToolCall),
}

/// Handles a call of the context-tracing tool `tool_name` with `arguments`;
/// `enabled` says whether context tracing is on, and `current` is the
/// session recorded as current, if any.
pub fn handle_tracing_tool(tool_name: &str, arguments: &Json, enabled: bool, current: Option<&str>) -> (r: Result<
    TracingToolReply,
    String,
>)
    ensures
        match tracing_call_error(enabled, tool_name@, arguments@) {
            Some(e) => r matches Err(m) && m@ == e,
            None => r is Ok,
        },
        r matches Ok(TracingToolReply::StartedSession { session_id, reply }) ==> tool_name@ == "start_session"@
            && (match arguments@.get_str("session_id"@) {
            Some(s) => session_id@ == s,
            None => session_id@.subrange(0, 8) == "session_"@ && session_id@.len() == 44 && is_uuid_v4_text(
                session_id@.subrange(8, 44),
            ),
        }) && reply@ == JsonView::Object(
            seq![
                (
                    "content"@,
                    text_content_view(start_session_text(session_id@, arguments@.get_str("user_query"@))),
                ),
                ("session_id"@, JsonView::Str(session_id@)),
            ],
        ),
        r matches Ok(TracingToolReply::EndedSession(j)) ==> tool_name@ == "end_session"@ && j@ == text_result_view(
            "Session ended: "@ + (match arguments@.get_str("session_id"@) {
                Some(s) => s,
                None => match current {
                    Some(c) => c@,
                    None => "unknown"@,
                },
            }) + "\n\nAuto-feedback: "@ + bool_text(arguments@.get("auto_feedback"@) == Some(JsonView::Bool(true)))
                + "\n\nUse /mcp-proxy:quality-report to see session impact."@,
        ),
        r matches Ok(TracingToolReply::Storage(c)) ==> tracing_call_reads_as(tool_name@, arguments@, c) && !(
        tool_name@ == "start_session"@ || tool_name@ == "end_session"@ || tool_name@ == "record_action"@
            || tool_name@ == "link_responses"@ || tool_name@ == "get_session_summary"@),
        r matches Ok(TracingToolReply::Done(j)) ==> exists|c: TracingToolCall|
            #![trigger tracing_call_reads_as(tool_name@, arguments@, c)]
            tracing_call_reads_as(tool_name@, arguments@, c) && match c {
                TracingToolCall::RecordAction { action_type, response_id } => j@ == text_result_view(
                    "Action recorded: "@ + action_type@ + "\nResponse: "@ + (match response_id {
                        Some(s) => s@,
                        None => "none"@,
                    }) + "\n\nThis feature is currently logging-only. Full action tracking coming soon."@,
                ),
                TracingToolCall::LinkResponses { parent, child, relationship } => j@ == text_result_view(
                    "Response relationship created:\n  "@ + parent@ + " --["@ + relationship@ + "]--> "@ + child@
                        + "\n\nThis creates a conversation chain showing how responses build on each other.\n\nFull relationship storage coming soon."@,
                ),
                TracingToolCall::GetSessionSummary { session_id } => j@ == text_result_view(
                    "Session Summary: "@ + session_id@
                        + "\n\nThis feature requires session-response mapping in storage.\nComing soon: Full session analytics with response chains, feedback trends, and quality metrics."@,
                ),
                _ => false,
            },
{
    let call = match parse_tracing_tool(tool_name, arguments, enabled) {
        Ok(c) => c,
        Err(e) => {
            return Err(e);
        },
    };
    let ghost c0 = call;
    proof {
        lemma_tracing_names_distinct();
    }
    match call {
        TracingToolCall::StartSession { session_id, user_query } => {
            let id = match session_id {
                Some(s) => s,
                None => new_session_id(),
            };
            let reply = start_session_reply(id.clone(), match &user_query {
                Some(q) => Some(q.as_str()),
                None => None,
            });
            Ok(TracingToolReply::StartedSession { session_id: id, reply })
        },
        TracingToolCall::EndSession { session_id, auto_feedback } => {
            let reply = end_session_reply(
                match &session_id {
                    Some(s) => Some(s.as_str()),
                    None => None,
                },
                current,
                auto_feedback,
            );
            Ok(TracingToolReply::EndedSession(reply))
        },
        TracingToolCall::RecordAction { action_type, response_id } => {
            let j = record_action_reply(
                action_type.as_str(),
                match &response_id {
                    Some(s) => Some(s.as_str()),
                    None => None,
                },
            );
            proof {
                assert(tracing_call_reads_as(tool_name@, arguments@, c0));
            }
            Ok(TracingToolReply::Done(j))
        },
        TracingToolCall::LinkResponses { parent, child, relationship } => {
            let j = link_responses_reply(parent.as_str(), relationship.as_str(), child.as_str());
            proof {
                assert(tracing_call_reads_as(tool_name@, arguments@, c0));
            }
            Ok(TracingToolReply::Done(j))
        },
        TracingToolCall::GetSessionSummary { session_id } => {
            let j = session_summary_reply(session_id.as_str());
            proof {
                assert(tracing_call_reads_as(tool_name@, arguments@, c0));
            }
            Ok(TracingToolReply::Done(j))
        },
        other => Ok(TracingToolReply::Storage(other)),
    }
}

/// What reading a tracing resource comes to.
#[derive(Debug, PartialEq, Eq)]
pub enum TracingResourceReply {
    /// The reply is ready.
    Done(Json),
    /// The read needs the stored tracing data, which the caller consults.
    Storage(TracingResource),
}

/// The reply to reading a fixed tracing resource (tag 0, 1 or 3): its
/// document written as text by `render`, as the `application/json` contents
/// of `uri`.
pub open spec fn rendered_reply<F: Fn(&Json) -> String>(render: F, uri: Seq<char>, tag: int, reply: JsonView) -> bool {
    exists|d: Json, t: String|
        #![trigger render.ensures((&d,), t)]
        d@ == fixed_tracing_view(tag) && render.ensures((&d,), t) && reply == resource_contents_view(
            uri,
            "application/json"@,
            t@,
        )
}

/// Handles a read of the tracing resource `uri`; `enabled` says whether
/// context tracing is on, and `render` writes a document as pretty-printed
/// JSON text.
pub fn handle_tracing_resource<F: Fn(&Json) -> String>(uri: &str, enabled: bool, render: F) -> (r: Result<
    TracingResourceReply,
    String,
>)
    requires
        forall|d: &Json| #[trigger] render.requires((d,)),
    ensures
        match tracing_resource_spec(uri@, enabled) {
            Err(e) => r matches Err(m) && m@ == e,
            Ok((tag, id)) => if tag == 0 || tag == 1 || tag == 3 {
                r matches Ok(TracingResourceReply::Done(j)) && rendered_reply(render, uri@, tag, j@)
            } else {
                r matches Ok(TracingResourceReply::Storage(t)) && tracing_resource_view(t) == (tag, id)
            },
        },
{
    let resource = match classify_tracing_resource(uri, enabled) {
        Ok(t) => t,
        Err(e) => {
            return Err(e);
        },
    };
    match fixed_tracing_document(&resource) {
        Some(d) => {
            let t = render(&d);
            let j = resource_contents(uri.to_string(), "application/json", t);
            Ok(TracingResourceReply::Done(j))
        },
        None => Ok(TracingResourceReply::Storage(resource)),
    }
}

} // verus!
