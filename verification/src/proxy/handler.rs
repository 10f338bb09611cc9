//! Handling a request from a client: what the proxy answers itself, what it
//! hands to its own tools and resources, and what it forwards, and how the
//! answers that come back are turned into the response.
//!
//! The work with the outside (backend connections, the clock, the tools'
//! state) is done by the caller: `plan_request` says what to do, and the
//! `finish_*` functions turn what came back into the response.
use vstd::prelude::*;
use crate::json::{Json, JsonView, JsonNumber, JsonNumberView, items_view, kv, lemma_entries_view_ext, lemma_items_view, lemma_items_view_ext};
use crate::protocol::adapter::ProtocolAdapter;
use crate::protocol::adapters::VersionAdapter;
use crate::protocol::state::{ServerConnectionState, may_send};
use crate::proxy::aggregator_tools::{AGGREGATOR_TOOL_PREFIX, get_aggregator_tools};
use crate::proxy::error::ProxyError;
use crate::proxy::messages::{CallParams, ListParams, MCPResponse, ReadParams, INTERNAL_ERROR, METHOD_NOT_FOUND, is_failure, is_success, opt_json};
use crate::proxy::naming::parse_prefixed_spec;
use crate::proxy::prompts::{get_prompt, get_proxy_prompts, prompt_for, proxy_prompts_view};
use crate::proxy::resources::{get_proxy_resources, proxy_resources_view};
use crate::proxy::router::RequestRouter;
use crate::proxy::server_tools::{SERVER_TOOL_PREFIX, get_server_tools};
use crate::proxy::tracing_tools::{TRACE_SCHEME, TRACING_TOOL_PREFIX, get_tracing_resources, get_tracing_tools, tracing_resources_view};
use crate::text::{concat, concat3, has_prefix, starts_with, str_eq, suffix_from};

verus! {

/// How long a `tools/list` answer is kept, in nanoseconds (two minutes).
pub const TOOLS_LIST_TTL_NANOS: u64 = 120_000_000_000;

/// The version the proxy reports as its own.
pub const PROXY_VERSION: &'static str = "0.1.0";

/// A cached `tools/list` answer and the time (in nanoseconds) it expires.
pub struct CachedResponse {
    pub value: Json,
    pub expires_at: u64,
}

/// The `tools/list` cache: at most one answer, with its expiry time.
pub struct ToolsListCache {
    entry: Option<CachedResponse>,
}

/// When an answer stored at `now` expires.
pub open spec fn expiry(now: u64) -> u64 {
    if now + TOOLS_LIST_TTL_NANOS > u64::MAX { u64::MAX } else { (now + TOOLS_LIST_TTL_NANOS) as u64 }
}

impl ToolsListCache {
    /// The cached answer and its expiry time, if any.
    pub closed spec fn spec_entry(&self) -> Option<(JsonView, u64)> {
        match self.entry {
            Some(c) => Some((c.value@, c.expires_at)),
            None => None,
        }
    }

    /// An empty cache.
    pub fn new() -> (r: Self)
        ensures
            r.spec_entry() is None,
    {
        ToolsListCache { entry: None }
    }

    /// The cached answer, when there is one that expires after `now`.
    pub fn lookup(&self, now: u64) -> (r: Option<Json>)
        ensures
            match r {
                Some(v) => cached_answer(self.spec_entry(), now) == Some(v@),
                None => cached_answer(self.spec_entry(), now) is None,
            },
    {
        match &self.entry {
            Some(c) => {
                if now < c.expires_at {
                    Some(c.value.deep_clone())
                } else {
                    None
                }
            },
            None => None,
        }
    }

    /// Keeps `value` as the answer until two minutes after `now`.
    pub fn store(&mut self, value: &Json, now: u64)
        ensures
            final(self).spec_entry() == Some((value@, expiry(now))),
    {
        let expires_at = now.saturating_add(TOOLS_LIST_TTL_NANOS);
        self.entry = Some(CachedResponse { value: value.deep_clone(), expires_at });
    }

    /// Forgets the cached answer.
    pub fn clear(&mut self)
        ensures
            final(self).spec_entry() is None,
    {
        self.entry = None;
    }
}

/// What a lookup at `now` gives from a cache holding `entry`.
pub open spec fn cached_answer(entry: Option<(JsonView, u64)>, now: u64) -> Option<JsonView> {
    match entry {
        Some((v, exp)) => if now < exp {
            Some(v)
        } else {
            None
        },
        None => None,
    }
}

/// An answer stored at `stored_at` is given back by every lookup in the two
/// minutes that follow, and by none after them (an expiry past the clock's
/// last value stops at it); a cleared cache gives nothing back.
pub proof fn lemma_cache_fresh_for_two_minutes(value: JsonView, stored_at: u64, now: u64)
    ensures
        now < stored_at + TOOLS_LIST_TTL_NANOS && now < u64::MAX ==> cached_answer(
            Some((value, expiry(stored_at))),
            now,
        ) == Some(value),
        now >= stored_at + TOOLS_LIST_TTL_NANOS ==> cached_answer(Some((value, expiry(stored_at))), now) is None,
        cached_answer(None, now) is None,
{
}

/// The proxy's request handler: its state is the `tools/list` cache.
pub struct RequestHandler {
    pub tools_list_cache: ToolsListCache,
}

impl RequestHandler {
    /// A handler with an empty cache.
    pub fn new() -> (r: Self)
        ensures
            r.tools_list_cache.spec_entry() is None,
    {
        RequestHandler { tools_list_cache: ToolsListCache::new() }
    }

    /// Forgets the cached `tools/list` answer.
    pub fn clear_cache(&mut self)
        ensures
            final(self).tools_list_cache.spec_entry() is None,
    {
        self.tools_list_cache.clear();
    }
}

/// Which family of the proxy's own tools a call names.
#[derive(Debug, Clone, Copy, PartialEq, Eq, Structural)]
pub enum ProxyToolFamily {
    Tracing,
    Server,
    Aggregator,
}

/// What handling a request takes.
#[derive(Debug, PartialEq, Eq)]
pub enum RequestPlan {
    /// The result is ready.
    Respond(Json),
    /// A `list` request: list the tools, resources or prompts.
    List(ListParams),
    /// A call of one of the proxy's own tools, by the part of its name
    /// after the family's prefix.
    ProxyTool { family: ProxyToolFamily, tool: String, arguments: Json },
    /// A call of a backend tool.
    Call(CallParams),
    /// A read; the parameters are still to be read as `ReadParams`.
    Read(Json),
    /// `tools/list`: answer from the cache or ask every server.
    ToolsList(Option<Json>),
    ResourcesList,
    PromptsList,
    /// `resources/templates/list`: ask every server.
    ResourceTemplates(Option<Json>),
    /// `prompts/get` for a prompt the proxy does not have: ask every server.
    ForwardPrompt { name: String, params: Option<Json> },
    /// Any other method: ask every server.
    Forward { method: String, params: Option<Json> },
}

/// The methods the proxy tells apart, in the order it tests them.
pub open spec fn method_kind(m: Seq<char>) -> int {
    if m == "initialize"@ {
        0
    } else if m == "list"@ {
        1
    } else if m == "call"@ || m == "tools/call"@ {
        2
    } else if m == "read"@ || m == "resources/read"@ {
        3
    } else if m == "ping"@ {
        4
    } else if m == "tools/list"@ {
        5
    } else if m == "resources/list"@ {
        6
    } else if m == "prompts/list"@ {
        7
    } else if m == "resources/templates/list"@ {
        8
    } else if m == "prompts/get"@ {
        9
    } else {
        10
    }
}

/// The name of the tool a call names: its `name`, else its `tool`.
pub open spec fn call_tool_name(params: JsonView) -> Option<Seq<char>> {
    match params.get("name"@) {
        Some(v) => v.as_str(),
        None => match params.get("tool"@) {
            Some(v) => v.as_str(),
            None => None,
        },
    }
}

/// The arguments of a call: its `arguments`, else an empty object.
pub open spec fn call_arguments(params: JsonView) -> JsonView {
    match params.get("arguments"@) {
        Some(a) => a,
        None => JsonView::Object(Seq::empty()),
    }
}

/// What a `list` request lists, by its type.
pub open spec fn list_kind(t: Seq<char>) -> Option<ListParams> {
    if t == "tools"@ {
        Some(ListParams::Tools)
    } else if t == "resources"@ {
        Some(ListParams::Resources)
    } else if t == "prompts"@ {
        Some(ListParams::Prompts)
    } else {
        None
    }
}

/// Why the proxy refuses a request outright (as an invalid request), if it does.
pub open spec fn plan_error(req: JsonView) -> Option<Seq<char>> {
    match req.get_str("method"@) {
        None => Some("Missing method"@),
        Some(m) => {
            let k = method_kind(m);
            let params = req.get("params"@);
            if k == 1 {
                match params {
                    None => Some("Missing params"@),
                    Some(p) => match p.get_str("type"@) {
                        None => Some("Missing list type"@),
                        Some(t) => if list_kind(t) is None {
                            Some("Unknown list type: "@ + t)
                        } else {
                            None
                        },
                    },
                }
            } else if k == 2 {
                match params {
                    None => Some("Missing params"@),
                    Some(p) => if call_tool_name(p) is None {
                        Some("Missing tool name"@)
                    } else {
                        None
                    },
                }
            } else if k == 3 {
                if params is None {
                    Some("Missing params"@)
                } else {
                    None
                }
            } else if k == 9 {
                match params {
                    None => Some("Missing prompt name"@),
                    Some(p) => if p.get_str("name"@) is None {
                        Some("Missing prompt name"@)
                    } else {
                        None
                    },
                }
            } else {
                None
            }
        },
    }
}

/// The result the proxy gives to `initialize`.
pub open spec fn initialize_result_view() -> JsonView {
    JsonView::Object(
        seq![
            ("protocolVersion"@, JsonView::Str("2025-03-26"@)),
            (
                "capabilities"@,
                JsonView::Object(
                    seq![
                        ("tools"@, JsonView::Object(seq![("listChanged"@, JsonView::Bool(false))])),
                        (
                            "resources"@,
                            JsonView::Object(
                                seq![("subscribe"@, JsonView::Bool(false)), ("listChanged"@, JsonView::Bool(false))],
                            ),
                        ),
                        ("prompts"@, JsonView::Object(seq![("listChanged"@, JsonView::Bool(false))])),
                    ],
                ),
            ),
            (
                "serverInfo"@,
                JsonView::Object(
                    seq![("name"@, JsonView::Str("mcp-rust-proxy"@)), ("version"@, JsonView::Str(PROXY_VERSION@))],
                ),
            ),
        ],
    )
}

/// How a call of the tool `name` with `args` is planned.
pub open spec fn call_planned_as(name: Seq<char>, args: JsonView, plan: RequestPlan) -> bool {
    if has_prefix(name, TRACING_TOOL_PREFIX@) {
        plan matches RequestPlan::ProxyTool { family, tool, arguments } && family == ProxyToolFamily::Tracing
            && tool@ == name.subrange(TRACING_TOOL_PREFIX@.len() as int, name.len() as int) && arguments@
            == args
    } else if has_prefix(name, SERVER_TOOL_PREFIX@) {
        plan matches RequestPlan::ProxyTool { family, tool, arguments } && family == ProxyToolFamily::Server
            && tool@ == name.subrange(SERVER_TOOL_PREFIX@.len() as int, name.len() as int) && arguments@
            == args
    } else if has_prefix(name, AGGREGATOR_TOOL_PREFIX@) {
        plan matches RequestPlan::ProxyTool { family, tool, arguments } && family == ProxyToolFamily::Aggregator
            && tool@ == name.subrange(AGGREGATOR_TOOL_PREFIX@.len() as int, name.len() as int)
            && arguments@ == args
    } else {
        plan matches RequestPlan::Call(c) && c.tool@ == name && c.arguments@ == args
    }
}

/// How a request the proxy accepts is planned.
pub open spec fn planned_as(req: JsonView, plan: RequestPlan) -> bool {
    match req.get_str("method"@) {
        None => false,
        Some(m) => {
            let k = method_kind(m);
            let params = req.get("params"@);
            if k == 0 {
                plan matches RequestPlan::Respond(j) && j@ == initialize_result_view()
            } else if k == 1 {
                plan matches RequestPlan::List(l) && Some(l) == list_kind(params.unwrap().get_str("type"@).unwrap())
            } else if k == 2 {
                let p = params.unwrap();
                call_planned_as(call_tool_name(p).unwrap(), call_arguments(p), plan)
            } else if k == 3 {
                plan matches RequestPlan::Read(p) && Some(p@) == params
            } else if k == 4 {
                plan matches RequestPlan::Respond(j) && j@ == JsonView::Object(Seq::empty())
            } else if k == 5 {
                plan matches RequestPlan::ToolsList(p) && opt_json(p) == params
            } else if k == 6 {
                plan is ResourcesList
            } else if k == 7 {
                plan is PromptsList
            } else if k == 8 {
                plan matches RequestPlan::ResourceTemplates(p) && opt_json(p) == params
            } else if k == 9 {
                let name = params.unwrap().get_str("name"@).unwrap();
                match prompt_for(name) {
                    Some(pv) => plan matches RequestPlan::Respond(j) && j@ == pv,
                    None => plan matches RequestPlan::ForwardPrompt { name: n, params: p } && n@ == name
                        && opt_json(p) == params,
                }
            } else {
                plan matches RequestPlan::Forward { method, params: p } && method@ == m && opt_json(p) == params
            }
        },
    }
}

fn method_kind_exec(m: &str) -> (r: u8)
    ensures
        r as int == method_kind(m@),
{
    if str_eq(m, "initialize") {
        0
    } else if str_eq(m, "list") {
        1
    } else if str_eq(m, "call") || str_eq(m, "tools/call") {
        2
    } else if str_eq(m, "read") || str_eq(m, "resources/read") {
        3
    } else if str_eq(m, "ping") {
        4
    } else if str_eq(m, "tools/list") {
        5
    } else if str_eq(m, "resources/list") {
        6
    } else if str_eq(m, "prompts/list") {
        7
    } else if str_eq(m, "resources/templates/list") {
        8
    } else if str_eq(m, "prompts/get") {
        9
    } else {
        10
    }
}

fn flag_object(key: &str, value: bool) -> (r: Json)
    ensures
        r@ == JsonView::Object(seq![(key@, JsonView::Bool(value))]),
{
    let e = vec![kv(key, Json::Bool(value))];
    proof {
        lemma_entries_view_ext(e@, seq![(key@, JsonView::Bool(value))]);
    }
    Json::Object(e)
}

/// The result the proxy gives to `initialize`.
pub fn initialize_result() -> (r: Json)
    ensures
        r@ == initialize_result_view(),
{
    let ghost whole = initialize_result_view();
    let res = vec![kv("subscribe", Json::Bool(false)), kv("listChanged", Json::Bool(false))];
    proof {
        lemma_entries_view_ext(res@, whole->Object_0[1].1->Object_0[1].1->Object_0);
    }
    let caps = vec![
        kv("tools", flag_object("listChanged", false)),
        kv("resources", Json::Object(res)),
        kv("prompts", flag_object("listChanged", false)),
    ];
    proof {
        lemma_entries_view_ext(caps@, whole->Object_0[1].1->Object_0);
    }
    let info = vec![kv("name", Json::string("mcp-rust-proxy")), kv("version", Json::string(PROXY_VERSION))];
    proof {
        lemma_entries_view_ext(info@, whole->Object_0[2].1->Object_0);
    }
    let top = vec![
        kv("protocolVersion", Json::string("2025-03-26")),
        kv("capabilities", Json::Object(caps)),
        kv("serverInfo", Json::Object(info)),
    ];
    proof {
        lemma_entries_view_ext(top@, whole->Object_0);
    }
    Json::Object(top)
}

/// The id of a request, when it has one.
pub fn request_id(request: &Json) -> (r: Option<Json>)
    ensures
        opt_json(r) == request@.get("id"@),
{
    match request.get("id") {
        Some(id) => Some(id.deep_clone()),
        None => None,
    }
}

fn opt_clone(o: Option<&Json>) -> (r: Option<Json>)
    ensures
        opt_json(r) == crate::json::opt_view(o),
{
    match o {
        Some(j) => Some(j.deep_clone()),
        None => None,
    }
}

fn plan_call(name: &str, args: Json) -> (r: RequestPlan)
    ensures
        call_planned_as(name@, args@, r),
{
    if starts_with(name, TRACING_TOOL_PREFIX) {
        let tool = suffix_from(name, TRACING_TOOL_PREFIX.unicode_len());
        RequestPlan::ProxyTool { family: ProxyToolFamily::Tracing, tool, arguments: args }
    } else if starts_with(name, SERVER_TOOL_PREFIX) {
        let tool = suffix_from(name, SERVER_TOOL_PREFIX.unicode_len());
        RequestPlan::ProxyTool { family: ProxyToolFamily::Server, tool, arguments: args }
    } else if starts_with(name, AGGREGATOR_TOOL_PREFIX) {
        let tool = suffix_from(name, AGGREGATOR_TOOL_PREFIX.unicode_len());
        RequestPlan::ProxyTool { family: ProxyToolFamily::Aggregator, tool, arguments: args }
    } else {
        RequestPlan::Call(CallParams { tool: name.to_string(), arguments: args })
    }
}

/// Decides how to handle `request`, or refuses it as an invalid request.
pub fn plan_request(request: &Json) -> (r: Result<RequestPlan, ProxyError>)
    ensures
        match r {
            Ok(p) => plan_error(request@) is None && planned_as(request@, p),
            Err(e) => e is InvalidRequest && plan_error(request@) == Some(e->InvalidRequest_0@),
        },
{
    let method = match request.get_str("method") {
        Some(m) => m,
        None => {
            return Err(ProxyError::InvalidRequest("Missing method".to_string()));
        },
    };
    let kind = method_kind_exec(method);
    let params = request.get("params");
    if kind == 0 {
        return Ok(RequestPlan::Respond(initialize_result()));
    }
    if kind == 1 {
        let p = match params {
            Some(p) => p,
            None => {
                return Err(ProxyError::InvalidRequest("Missing params".to_string()));
            },
        };
        let t = match p.get_str("type") {
            Some(t) => t,
            None => {
                return Err(ProxyError::InvalidRequest("Missing list type".to_string()));
            },
        };
        if str_eq(t, "tools") {
            return Ok(RequestPlan::List(ListParams::Tools));
        } else if str_eq(t, "resources") {
            return Ok(RequestPlan::List(ListParams::Resources));
        } else if str_eq(t, "prompts") {
            return Ok(RequestPlan::List(ListParams::Prompts));
        } else {
            return Err(ProxyError::InvalidRequest(concat("Unknown list type: ", t)));
        }
    }
    if kind == 2 {
        let p = match params {
            Some(p) => p,
            None => {
                return Err(ProxyError::InvalidRequest("Missing params".to_string()));
            },
        };
        let name_value = match p.get("name") {
            Some(v) => Some(v),
            None => p.get("tool"),
        };
        let name = match name_value {
            Some(Json::Str(s)) => s.as_str(),
            _ => {
                return Err(ProxyError::InvalidRequest("Missing tool name".to_string()));
            },
        };
        let args = match p.get("arguments") {
            Some(a) => a.deep_clone(),
            None => Json::empty_object(),
        };
        return Ok(plan_call(name, args));
    }
    if kind == 3 {
        return match params {
            Some(p) => Ok(RequestPlan::Read(p.deep_clone())),
            None => Err(ProxyError::InvalidRequest("Missing params".to_string())),
        };
    }
    if kind == 4 {
        return Ok(RequestPlan::Respond(Json::empty_object()));
    }
    if kind == 5 {
        return Ok(RequestPlan::ToolsList(opt_clone(params)));
    }
    if kind == 6 {
        return Ok(RequestPlan::ResourcesList);
    }
    if kind == 7 {
        return Ok(RequestPlan::PromptsList);
    }
    if kind == 8 {
        return Ok(RequestPlan::ResourceTemplates(opt_clone(params)));
    }
    if kind == 9 {
        let name = match params {
            Some(p) => match p.get_str("name") {
                Some(n) => n,
                None => {
                    return Err(ProxyError::InvalidRequest("Missing prompt name".to_string()));
                },
            },
            None => {
                return Err(ProxyError::InvalidRequest("Missing prompt name".to_string()));
            },
        };
        return match get_prompt(name, None) {
            Some(prompt) => Ok(RequestPlan::Respond(prompt)),
            None => Ok(RequestPlan::ForwardPrompt { name: name.to_string(), params: opt_clone(params) }),
        };
    }
    Ok(RequestPlan::Forward { method: method.to_string(), params: opt_clone(params) })
}

/// A copy of `items` with the same views.
pub fn clone_items(items: &Vec<Json>) -> (r: Vec<Json>)
    ensures
        items_view(r@) == items_view(items@),
{
    let n = items.len();
    let mut out: Vec<Json> = Vec::new();
    let mut i: usize = 0;
    while i < n
        invariant
            n == items@.len(),
            i <= n,
            out@.len() == i,
            forall|j: int| 0 <= j < i ==> #[trigger] out@[j]@ == items@[j]@,
        decreases n - i,
    {
        out.push(items[i].deep_clone());
        i = i + 1;
    }
    proof {
        lemma_items_view(items@);
        assert forall|j: int| 0 <= j < out@.len() implies crate::json::json_view(#[trigger] out@[j])
            == items_view(items@)[j] by {
            assert(out@[j]@ == items@[j]@);
        }
        lemma_items_view_ext(out@, items_view(items@));
    }
    out
}

/// `result` with `extra` appended to the array under `key`, when it holds one.
pub open spec fn extend_list_spec(result: JsonView, key: Seq<char>, extra: Seq<JsonView>) -> JsonView {
    match result.get(key) {
        Some(JsonView::Array(a)) => result.insert(key, JsonView::Array(a + extra)),
        _ => result,
    }
}

/// Appends `extra` to the array under `key`, when `result` holds one there.
pub fn extend_list(result: Json, key: &str, extra: Vec<Json>) -> (r: Json)
    ensures
        r@ == extend_list_spec(result@, key@, items_view(extra@)),
{
    let ghost ev = items_view(extra@);
    let current = match result.get(key) {
        Some(v) => v.deep_clone(),
        None => {
            return result;
        },
    };
    match current {
        Json::Array(mut items) => {
            let ghost iv = items@;
            let mut extra = extra;
            let ghost xv = extra@;
            items.append(&mut extra);
            proof {
                lemma_items_view(iv);
                lemma_items_view(xv);
                lemma_items_view_ext(items@, items_view(iv) + items_view(xv));
            }
            let mut result = result;
            result.insert(key.to_string(), Json::Array(items));
            result
        },
        _ => result,
    }
}

/// What a listing gives: the servers' combined answer with `extra`
/// appended, or, when no server answered, `fallback` alone.
pub open spec fn merged_list(
    outcome: Result<JsonView, ProxyError>,
    key: Seq<char>,
    extra: Seq<JsonView>,
    fallback: Seq<JsonView>,
) -> JsonView {
    match outcome {
        Ok(r) => extend_list_spec(r, key, extra),
        Err(_) => JsonView::Object(seq![(key, JsonView::Array(fallback))]),
    }
}

/// The view of an outcome.
pub open spec fn outcome_view(o: Result<Json, ProxyError>) -> Result<JsonView, ProxyError> {
    match o {
        Ok(j) => Ok(j@),
        Err(e) => Err(e),
    }
}

fn merge_list(outcome: Result<Json, ProxyError>, key: &str, extra: Vec<Json>, fallback: Vec<Json>) -> (r: Json)
    ensures
        r@ == merged_list(outcome_view(outcome), key@, items_view(extra@), items_view(fallback@)),
{
    match outcome {
        Ok(result) => extend_list(result, key, extra),
        Err(_) => crate::proxy::content::object_with_array(key, fallback),
    }
}

/// The proxy's own tools as listed: the tracing tools, then the server
/// tools, then (when `with_aggregator`) the aggregator tool.
pub open spec fn proxy_tools_view(with_aggregator: bool) -> Seq<JsonView> {
    let base = crate::proxy::tracing_tools::listed_tracing_tools_view() + Seq::new(
        6,
        |i: int| crate::proxy::server_tools::server_tool_view(i),
    );
    if with_aggregator {
        base.push(crate::proxy::aggregator_tools::aggregator_tool_view())
    } else {
        base
    }
}

/// The proxy's own tools as listed.
pub fn proxy_tools(with_aggregator: bool) -> (r: Vec<Json>)
    ensures
        items_view(r@) == proxy_tools_view(with_aggregator),
{
    let mut tools = get_tracing_tools();
    let ghost tv = tools@;
    let mut server = get_server_tools();
    let ghost sv = server@;
    tools.append(&mut server);
    let ghost both = tools@;
    proof {
        lemma_items_view(tv);
        lemma_items_view(sv);
        assert(items_view(sv) =~= Seq::new(6, |i: int| crate::proxy::server_tools::server_tool_view(i)));
        lemma_items_view_ext(both, items_view(tv) + items_view(sv));
    }
    if with_aggregator {
        let mut agg = get_aggregator_tools();
        let ghost av = agg@;
        tools.append(&mut agg);
        proof {
            lemma_items_view(av);
            lemma_items_view(both);
            lemma_items_view_ext(tools@, items_view(both) + items_view(av));
        }
    }
    tools
}

/// What a listing of `kind` gives, from the servers' combined answer: the
/// proxy's own items are appended (tracing and server tools for tools, the
/// proxy resources for resources, the proxy prompts for prompts), and when
/// no server answered the proxy's own items stand alone (for resources, the
/// tracing resources and then the proxy resources).
pub open spec fn list_result_spec(kind: ListParams, outcome: Result<JsonView, ProxyError>, tools: Seq<JsonView>) -> JsonView {
    match kind {
        ListParams::Tools => merged_list(outcome, "tools"@, tools, tools),
        ListParams::Resources => merged_list(
            outcome,
            "resources"@,
            proxy_resources_view(),
            tracing_resources_view() + proxy_resources_view(),
        ),
        ListParams::Prompts => merged_list(outcome, "prompts"@, proxy_prompts_view(), proxy_prompts_view()),
    }
}

/// Finishes a listing of `kind` from what the servers answered.
pub fn finish_list(kind: ListParams, outcome: Result<Json, ProxyError>) -> (r: Json)
    ensures
        r@ == list_result_spec(kind, outcome_view(outcome), proxy_tools_view(false)),
{
    let r = match kind {
        ListParams::Tools => {
            let tools = proxy_tools(false);
            let fallback = clone_items(&tools);
            merge_list(outcome, "tools", tools, fallback)
        },
        ListParams::Resources => {
            let mut fallback = get_tracing_resources();
            let ghost a = fallback@;
            let mut proxy = get_proxy_resources();
            let ghost b = proxy@;
            fallback.append(&mut proxy);
            proof {
                lemma_items_view(a);
                lemma_items_view(b);
                lemma_items_view_ext(fallback@, items_view(a) + items_view(b));
            }
            merge_list(outcome, "resources", get_proxy_resources(), fallback)
        },
        ListParams::Prompts => merge_list(outcome, "prompts", get_proxy_prompts(), get_proxy_prompts()),
    };
    r
}

/// Where a read goes, once its parameters are read.
#[derive(Debug, PartialEq, Eq)]
pub enum ReadRoute {
    /// A `trace://` resource.
    Tracing(String),
    /// A `proxy://` resource.
    Proxy(String),
    /// A backend server's resource.
    Backend(ReadParams),
}

/// Sends a read to the tracing resources, the proxy's resources, or a backend.
pub fn route_read(params: ReadParams) -> (r: ReadRoute)
    ensures
        has_prefix(params.uri@, TRACE_SCHEME@) ==> (r matches ReadRoute::Tracing(u) && u@ == params.uri@),
        !has_prefix(params.uri@, TRACE_SCHEME@) && has_prefix(params.uri@, "proxy://"@) ==> (r matches ReadRoute::Proxy(
            u,
        ) && u@ == params.uri@),
        !has_prefix(params.uri@, TRACE_SCHEME@) && !has_prefix(params.uri@, "proxy://"@) ==> (r matches ReadRoute::Backend(
            p,
        ) && p.uri@ == params.uri@),
{
    if starts_with(params.uri.as_str(), TRACE_SCHEME) {
        ReadRoute::Tracing(params.uri)
    } else if starts_with(params.uri.as_str(), "proxy://") {
        ReadRoute::Proxy(params.uri)
    } else {
        ReadRoute::Backend(params)
    }
}

/// The response carrying a result that is ready.
pub fn respond(id: Option<Json>, result: Json) -> (r: MCPResponse)
    ensures
        is_success(r, opt_json(id), result@),
{
    MCPResponse::success(id, result)
}

/// The response to a call of one of the proxy's own tools, or to a read of
/// a tracing resource: the result, or an internal error with the tool's message.
pub fn finish_proxy_tool(id: Option<Json>, outcome: Result<Json, String>) -> (r: MCPResponse)
    ensures
        match outcome {
            Ok(j) => is_success(r, opt_json(id), j@),
            Err(e) => is_failure(r, opt_json(id), INTERNAL_ERROR, e@),
        },
{
    match outcome {
        Ok(j) => MCPResponse::success(id, j),
        Err(e) => MCPResponse::failure(id, INTERNAL_ERROR, e),
    }
}

/// The response to a read of one of the proxy's resources.
pub fn finish_proxy_resource(id: Option<Json>, outcome: Result<Json, ProxyError>) -> (r: MCPResponse)
    ensures
        match outcome {
            Ok(j) => is_success(r, opt_json(id), j@),
            Err(e) => is_failure(r, opt_json(id), INTERNAL_ERROR, "Failed to read proxy resource: "@ + e.text()),
        },
{
    match outcome {
        Ok(j) => MCPResponse::success(id, j),
        Err(e) => MCPResponse::failure(id, INTERNAL_ERROR, concat("Failed to read proxy resource: ", e.message().as_str())),
    }
}

/// The response to a backend call or read: its result, or its error
/// passed on to the caller.
pub fn finish_backend(id: Option<Json>, outcome: Result<Json, ProxyError>) -> (r: Result<MCPResponse, ProxyError>)
    ensures
        match outcome {
            Ok(j) => r matches Ok(resp) && is_success(resp, opt_json(id), j@),
            Err(e) => r == Err::<MCPResponse, _>(e),
        },
{
    match outcome {
        Ok(j) => Ok(MCPResponse::success(id, j)),
        Err(e) => Err(e),
    }
}

/// The response to `resources/templates/list`: the servers' answer, or no
/// templates when none answered.
pub fn finish_templates(id: Option<Json>, outcome: Result<Json, ProxyError>) -> (r: MCPResponse)
    ensures
        match outcome {
            Ok(j) => is_success(r, opt_json(id), j@),
            Err(_) => is_success(
                r,
                opt_json(id),
                JsonView::Object(seq![("resourceTemplates"@, JsonView::Array(Seq::empty()))]),
            ),
        },
{
    match outcome {
        Ok(j) => MCPResponse::success(id, j),
        Err(_) => {
            let v: Vec<Json> = Vec::new();
            proof {
                lemma_items_view(v@);
            }
            MCPResponse::success(id, crate::proxy::content::object_with_array("resourceTemplates", v))
        },
    }
}

/// The response to `prompts/get` for a prompt the proxy does not have.
pub fn finish_forward_prompt(id: Option<Json>, name: &str, outcome: Result<Json, ProxyError>) -> (r: MCPResponse)
    ensures
        match outcome {
            Ok(j) => is_success(r, opt_json(id), j@),
            Err(_) => is_failure(r, opt_json(id), METHOD_NOT_FOUND, "Prompt not found: "@ + name@),
        },
{
    match outcome {
        Ok(j) => MCPResponse::success(id, j),
        Err(_) => MCPResponse::failure(id, METHOD_NOT_FOUND, concat("Prompt not found: ", name)),
    }
}

/// The response to a method the proxy does not know itself.
pub fn finish_forward(id: Option<Json>, method: &str, outcome: Result<Json, ProxyError>) -> (r: MCPResponse)
    ensures
        match outcome {
            Ok(j) => is_success(r, opt_json(id), j@),
            Err(_) => is_failure(r, opt_json(id), METHOD_NOT_FOUND, "Method not found: "@ + method@),
        },
{
    match outcome {
        Ok(j) => MCPResponse::success(id, j),
        Err(_) => MCPResponse::failure(id, METHOD_NOT_FOUND, concat("Method not found: ", method)),
    }
}

impl RequestHandler {
    /// The cached `tools/list` answer as a response, when one is still fresh at `now`.
    pub fn cached_tools_list(&self, id: Option<Json>, now: u64) -> (r: Option<MCPResponse>)
        ensures
            match r {
                Some(resp) => cached_answer(self.tools_list_cache.spec_entry(), now) matches Some(val) && is_success(
                    resp,
                    opt_json(id),
                    val,
                ),
                None => cached_answer(self.tools_list_cache.spec_entry(), now) is None,
            },
    {
        match self.tools_list_cache.lookup(now) {
            Some(v) => Some(MCPResponse::success(id, v)),
            None => None,
        }
    }

    /// The response to `tools/list` from the servers' combined answer: the
    /// proxy's own tools (tracing, server and aggregator) are appended and
    /// the answer is cached from `now`; when no server answered, an
    /// internal error, and the cache is left as it was.
    pub fn finish_tools_list(&mut self, id: Option<Json>, outcome: Result<Json, ProxyError>, now: u64) -> (r:
        MCPResponse)
        ensures
            match outcome {
                Ok(j) => is_success(r, opt_json(id), extend_list_spec(j@, "tools"@, proxy_tools_view(true)))
                    && final(self).tools_list_cache.spec_entry() == Some(
                    (extend_list_spec(j@, "tools"@, proxy_tools_view(true)), expiry(now)),
                ),
                Err(_) => is_failure(r, opt_json(id), INTERNAL_ERROR, "Failed to fetch tools list"@)
                    && final(self).tools_list_cache.spec_entry() == old(self).tools_list_cache.spec_entry(),
            },
    {
        match outcome {
            Ok(result) => {
                let tools = proxy_tools(true);
                let value = extend_list(result, "tools", tools);
                self.tools_list_cache.store(&value, now);
                MCPResponse::success(id, value)
            },
            Err(_) => MCPResponse::failure(id, INTERNAL_ERROR, "Failed to fetch tools list".to_string()),
        }
    }
}

/// Whether a request may go to a server, by the state of its connection:
/// a server whose connection is tracked takes only what its state allows.
pub fn readiness_gate(state: Option<&ServerConnectionState>, server: &str, method: &str) -> (r: Result<(), ProxyError>)
    ensures
        match state {
            None => r is Ok,
            Some(s) => if may_send(s.spec_state(), method@) {
                r is Ok
            } else {
                r matches Err(ProxyError::ServerNotReady(m)) && m@ == "Server '"@ + server@ + "' is not ready to handle '"@
                    + method@ + "' requests. Server is still initializing."@
            },
        },
{
    match state {
        None => Ok(()),
        Some(s) => {
            if s.can_send_request(method) {
                Ok(())
            } else {
                let a = concat3("Server '", server, "' is not ready to handle '");
                let b = concat3(a.as_str(), method, "' requests. Server is still initializing.");
                Err(ProxyError::ServerNotReady(b))
            }
        },
    }
}

/// The JSON-RPC request sent to a backend server.
pub open spec fn backend_request_view(method: Seq<char>, params: JsonView) -> JsonView {
    JsonView::Object(
        seq![
            ("jsonrpc"@, JsonView::Str("2.0"@)),
            ("method"@, JsonView::Str(method)),
            ("params"@, params),
            ("id"@, JsonView::Number(JsonNumberView::PosInt(1))),
        ],
    )
}

/// The request forwarded to a backend server for `method`, with `params`
/// (an empty object when there are none), in the form its protocol version
/// takes (the adapter passes requests through unchanged).
pub fn outgoing_request(method: &str, params: Option<&Json>, adapter: Option<&VersionAdapter>) -> (r: Json)
    ensures
        r@ == backend_request_view(
            method@,
            match params {
                Some(p) => p@,
                None => JsonView::Object(Seq::empty()),
            },
        ),
{
    let p = match params {
        Some(p) => p.deep_clone(),
        None => Json::empty_object(),
    };
    let ghost pv = p@;
    let entries = vec![
        kv("jsonrpc", Json::string("2.0")),
        kv("method", Json::string(method)),
        kv("params", p),
        kv("id", Json::Number(JsonNumber::PosInt(1))),
    ];
    proof {
        lemma_entries_view_ext(entries@, backend_request_view(method@, pv)->Object_0);
    }
    let request = Json::Object(entries);
    match adapter {
        Some(a) => match a.translate_request(request) {
            Ok(t) => t,
            Err(_) => Json::Null,
        },
        None => request,
    }
}

/// What the proxy takes from a backend's response to a forwarded request:
/// after translation to the proxy's version, an error is reported with its
/// message, else the result is taken.
pub open spec fn incoming_spec(response: JsonView) -> Result<JsonView, Seq<char>> {
    match response.get("error"@) {
        Some(e) => Err(
            "Server error: "@ + match e.get_str("message"@) {
                Some(m) => m,
                None => "Unknown"@,
            },
        ),
        None => match response.get("result"@) {
            Some(r) => Ok(r),
            None => Err("No result in response"@),
        },
    }
}

/// Takes the result of a backend's response to a forwarded request.
pub fn incoming_result(response: Json, adapter: Option<&VersionAdapter>) -> (r: Result<Json, ProxyError>)
    ensures
        ({
            let t = match adapter {
                Some(a) => a.response_translation(response@),
                None => response@,
            };
            match r {
                Ok(j) => incoming_spec(t) == Ok::<_, Seq<char>>(j@),
                Err(e) => e is InvalidRequest && incoming_spec(t) == Err::<JsonView, _>(e->InvalidRequest_0@),
            }
        }),
{
    let response = match adapter {
        Some(a) => match a.translate_response(response) {
            Ok(t) => t,
            Err(_) => Json::Null,
        },
        None => response,
    };
    match response.get("error") {
        Some(e) => {
            let m = match e.get_str("message") {
                Some(m) => m,
                None => "Unknown",
            };
            return Err(ProxyError::InvalidRequest(concat("Server error: ", m)));
        },
        None => {},
    }
    match response.get("result") {
        Some(r) => Ok(r.deep_clone()),
        None => Err(ProxyError::InvalidRequest("No result in response".to_string())),
    }
}

/// The server and tool a backend call goes to: read from a prefixed name,
/// else looked up by the router.
pub open spec fn call_target_spec(tools: Map<Seq<char>, Seq<char>>, tool: Seq<char>) -> Result<
    (Seq<char>, Seq<char>),
    Seq<char>,
> {
    match parse_prefixed_spec(tool) {
        Some(st) => Ok(st),
        None => if tools.contains_key(tool) {
            Ok((tools[tool], tool))
        } else {
            Err("No server handles tool: "@ + tool)
        },
    }
}

/// The server and tool a backend call of `tool` goes to.
pub fn call_target(router: &RequestRouter, tool: &str) -> (r: Result<(String, String), ProxyError>)
    ensures
        match r {
            Ok((s, t)) => call_target_spec(router.tools(), tool@) == Ok::<_, Seq<char>>((s@, t@)),
            Err(e) => e is ServerNotFound && call_target_spec(router.tools(), tool@) == Err::<(Seq<char>, Seq<char>), _>(
                e->ServerNotFound_0@,
            ),
        },
{
    match crate::proxy::naming::parse_prefixed_name(tool) {
        Some(st) => Ok(st),
        None => match router.get_server_for_tool(tool) {
            Some(server) => Ok((server, tool.to_string())),
            None => Err(ProxyError::ServerNotFound(concat("No server handles tool: ", tool))),
        },
    }
}

/// Refuses a call to a server that the configuration disables; a server the
/// configuration does not know (`None`) is taken as enabled.
pub fn enabled_gate(server: &str, enabled: Option<bool>) -> (r: Result<(), ProxyError>)
    ensures
        enabled == Some(false) ==> (r matches Err(ProxyError::ServerNotFound(m)) && m@ == "Server '"@ + server@
            + "' is disabled. Enable it with mcp__proxy__server__enable"@),
        enabled != Some(false) ==> r is Ok,
{
    match enabled {
        Some(false) => Err(
            ProxyError::ServerNotFound(
                concat3("Server '", server, "' is disabled. Enable it with mcp__proxy__server__enable"),
            ),
        ),
        _ => Ok(()),
    }
}

/// The token limit a call carries in its `tokens` argument, as a 32-bit
/// number (higher bits are dropped).
pub fn tokens_argument(arguments: &Json) -> (r: Option<u32>)
    ensures
        match arguments@.get("tokens"@) {
            Some(JsonView::Number(JsonNumberView::PosInt(n))) => r == Some((n % 0x1_0000_0000) as u32),
            _ => r is None,
        },
{
    match arguments.get("tokens") {
        Some(Json::Number(JsonNumber::PosInt(n))) => Some((*n % 0x1_0000_0000) as u32),
        _ => None,
    }
}

/// The `tools/call` request sent to a backend server.
pub fn tool_call_request(tool: &str, arguments: Json) -> (r: Json)
    ensures
        r@ == backend_request_view(
            "tools/call"@,
            JsonView::Object(seq![("name"@, JsonView::Str(tool@)), ("arguments"@, arguments@)]),
        ),
{
    let ghost av = arguments@;
    let params = vec![kv("name", Json::string(tool)), kv("arguments", arguments)];
    proof {
        lemma_entries_view_ext(params@, seq![("name"@, JsonView::Str(tool@)), ("arguments"@, av)]);
    }
    let p = Json::Object(params);
    outgoing_request("tools/call", Some(&p), None)
}

/// The server a backend read of `uri` goes to.
pub fn read_target(router: &RequestRouter, uri: &str) -> (r: Result<String, ProxyError>)
    ensures
        match r {
            Ok(s) => router.resources().contains_key(uri@) && router.resources()[uri@] == s@,
            Err(e) => !router.resources().contains_key(uri@) && (e matches ProxyError::ServerNotFound(m)
                && m@ == "No server handles resource: "@ + uri@),
        },
{
    match router.get_server_for_resource(uri) {
        Some(s) => Ok(s),
        None => Err(ProxyError::ServerNotFound(concat("No server handles resource: ", uri))),
    }
}

/// The `read` request sent to a backend server.
pub fn read_request(uri: &str) -> (r: Json)
    ensures
        r@ == backend_request_view("read"@, JsonView::Object(seq![("uri"@, JsonView::Str(uri@))])),
{
    let params = vec![kv("uri", Json::string(uri))];
    proof {
        lemma_entries_view_ext(params@, seq![("uri"@, JsonView::Str(uri@))]);
    }
    let p = Json::Object(params);
    outgoing_request("read", Some(&p), None)
}

/// The result of a backend's response to a call or read.
pub fn result_of(response: &Json) -> (r: Result<Json, ProxyError>)
    ensures
        match response@.get("result"@) {
            Some(v) => r matches Ok(j) && j@ == v,
            None => r matches Err(ProxyError::InvalidRequest(m)) && m@ == "No result in response"@,
        },
{
    match response.get("result") {
        Some(v) => Ok(v.deep_clone()),
        None => Err(ProxyError::InvalidRequest("No result in response".to_string())),
    }
}

/// A backend tool that `tools/list` shows, relabelled from `server`, is
/// shown under its prefixed name, and a call by that name goes back to
/// `server` and the tool's own name, whatever the router holds, for every
/// server name that can be read back (see `routable_server_name`).
pub proof fn lemma_listed_tool_routes_back(tools: Map<Seq<char>, Seq<char>>, server: Seq<char>, item: JsonView)
    requires
        crate::proxy::naming::routable_server_name(server),
        item.get_str("name"@) is Some,
    ensures
        crate::proxy::aggregate::relabel(item, server, "name"@, "originalName"@, false).get_str("name"@) == Some(
            crate::proxy::naming::prefixed_name(server, item.get_str("name"@).unwrap()),
        ),
        call_target_spec(tools, crate::proxy::naming::prefixed_name(server, item.get_str("name"@).unwrap())) == Ok::<
            _,
            Seq<char>,
        >((server, item.get_str("name"@).unwrap())),
{
    reveal_strlit("name");
    reveal_strlit("originalName");
    reveal_strlit("server");
    let v = item.get_str("name"@).unwrap();
    let p = crate::proxy::naming::prefixed_name(server, v);
    let a = item.insert("name"@, JsonView::Str(p));
    let b = a.insert("originalName"@, JsonView::Str(v));
    crate::json::lemma_get_insert_same(item, "name"@, JsonView::Str(p));
    assert("name"@.len() == 4 && "originalName"@.len() == 12 && "server"@.len() == 6);
    crate::json::lemma_get_insert_other(a, "originalName"@, JsonView::Str(v), "name"@);
    crate::json::lemma_get_insert_other(b, "server"@, JsonView::Str(server), "name"@);
    crate::proxy::naming::lemma_prefixed_name_round_trip(server, v);
}

/// The first step of handling a request: the response when it is ready at
/// once, else the work to do for request `id`.
#[derive(Debug, PartialEq, Eq)]
pub enum HandleStep {
    Respond(MCPResponse),
    Work { id: Option<Json>, plan: RequestPlan },
}

/// What starting to handle `request` at `now`, with the `tools/list` cache
/// holding `entry`, gives: the error when the request is refused; the
/// response when the proxy answers it itself, or when it is a `tools/list`
/// whose cached answer is fresh; else the work to do, for the request's id.
pub open spec fn handled_as(
    entry: Option<(JsonView, u64)>,
    request: JsonView,
    now: u64,
    r: Result<HandleStep, ProxyError>,
) -> bool {
    match r {
        Err(e) => e is InvalidRequest && plan_error(request) == Some(e->InvalidRequest_0@),
        Ok(HandleStep::Respond(resp)) => plan_error(request) is None && (exists|plan: RequestPlan|
            #![trigger planned_as(request, plan)]
            planned_as(request, plan) && match plan {
                RequestPlan::Respond(j) => is_success(resp, request.get("id"@), j@),
                RequestPlan::ToolsList(_) => cached_answer(entry, now) matches Some(val) && is_success(
                    resp,
                    request.get("id"@),
                    val,
                ),
                _ => false,
            }),
        Ok(HandleStep::Work { id, plan }) => plan_error(request) is None && planned_as(request, plan) && opt_json(id)
            == request.get("id"@) && !(plan is Respond) && (plan is ToolsList ==> cached_answer(entry, now) is None),
    }
}

/// A `tools/list` request handled within two minutes of the answer that
/// `finish_tools_list` cached at `stored_at` (`answer`, the servers' tools
/// with the proxy's own appended) is answered with that same result, at
/// once: it is not handed out as work, so no server is asked again.
pub proof fn lemma_second_tools_list_is_cached(
    answer: JsonView,
    stored_at: u64,
    request: JsonView,
    now: u64,
    r: Result<HandleStep, ProxyError>,
)
    requires
        request.get_str("method"@) == Some("tools/list"@),
        stored_at <= now,
        now < stored_at + TOOLS_LIST_TTL_NANOS,
        now < u64::MAX,
        handled_as(Some((answer, expiry(stored_at))), request, now, r),
    ensures
        r matches Ok(HandleStep::Respond(resp)) && is_success(resp, request.get("id"@), answer),
{
    reveal_strlit("tools/list");
    reveal_strlit("initialize");
    reveal_strlit("list");
    reveal_strlit("call");
    reveal_strlit("read");
    reveal_strlit("ping");
    reveal_strlit("tools/call");
    reveal_strlit("resources/read");
    assert("tools/list"@[6] != "tools/call"@[6]);
    assert("tools/list"@[0] != "initialize"@[0]);
    assert("tools/list"@.len() != "resources/read"@.len());
    assert("tools/list"@.len() != "list"@.len() && "tools/list"@.len() != "call"@.len());
    assert("tools/list"@.len() != "read"@.len() && "tools/list"@.len() != "ping"@.len());
    assert(method_kind("tools/list"@) == 5);
    lemma_cache_fresh_for_two_minutes(answer, stored_at, now);
    match r {
        Ok(HandleStep::Respond(resp)) => {
            let plan = choose|plan: RequestPlan| #![trigger planned_as(request, plan)] planned_as(request, plan) && match plan {
                RequestPlan::Respond(j) => is_success(resp, request.get("id"@), j@),
                RequestPlan::ToolsList(_) => cached_answer(Some((answer, expiry(stored_at))), now) matches Some(val)
                    && is_success(resp, request.get("id"@), val),
                _ => false,
            };
            assert(plan is ToolsList);
        },
        _ => {},
    }
}

impl RequestHandler {
    /// Starts handling `request` at `now`: a request the proxy answers
    /// itself (and a `tools/list` whose cached answer is fresh) gets its
    /// response; any other gets the work to do; a request the proxy refuses
    /// gets its error.
    pub fn handle_request(&self, request: &Json, now: u64) -> (r: Result<HandleStep, ProxyError>)
        ensures
            handled_as(self.tools_list_cache.spec_entry(), request@, now, r),
    {
        let id = request_id(request);
        let plan = match plan_request(request) {
            Ok(p) => p,
            Err(e) => {
                return Err(e);
            },
        };
        match plan {
            RequestPlan::Respond(j) => {
                let ghost p = RequestPlan::Respond(j);
                let resp = MCPResponse::success(id, j);
                proof {
                    assert(planned_as(request@, p));
                }
                Ok(HandleStep::Respond(resp))
            },
            RequestPlan::ToolsList(params) => {
                let ghost p = RequestPlan::ToolsList(params);
                let id_copy = match &id {
                    Some(j) => Some(j.deep_clone()),
                    None => None,
                };
                match self.cached_tools_list(id_copy, now) {
                    Some(resp) => {
                        proof {
                            assert(planned_as(request@, p));
                        }
                        Ok(HandleStep::Respond(resp))
                    },
                    None => Ok(HandleStep::Work { id, plan: RequestPlan::ToolsList(params) }),
                }
            },
            other => Ok(HandleStep::Work { id, plan: other }),
        }
    }
}

} // verus!
