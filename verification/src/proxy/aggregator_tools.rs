//! The proxy's context aggregator tool: its definition, how a call is read,
//! which servers it consults, and its reply.
use vstd::prelude::*;
use crate::json::{Json, JsonView, JsonNumberView, items_view, kv, lemma_items_view, lemma_items_view_ext};
use crate::proxy::content::{create_tool, text_result, text_result_view, tool_view};
use crate::proxy::schema::{entries1, entries2, entries3, integer, object_schema, object_schema_view, property, property_view, strings1};
use crate::text::{concat, str_eq};

verus! {

/// The prefix that marks an aggregator tool.
pub const AGGREGATOR_TOOL_PREFIX: &'static str = "mcp__proxy__aggregator__";

/// What the aggregator tool is for.
pub const AGGREGATOR_DESCRIPTION: &'static str = "Aggregate and optimize context from multiple MCP servers (context7, serena, etc.) for improved LLM responses with reduced context waste";

/// The input schema of the aggregator tool.
pub open spec fn aggregator_schema_view() -> JsonView {
    object_schema_view(
        seq![
            (
                "query"@,
                property_view(
                    "string"@,
                    "The user query to aggregate context for"@,
                    seq![
                        ("minLength"@, JsonView::Number(JsonNumberView::PosInt(1))),
                        ("maxLength"@, JsonView::Number(JsonNumberView::PosInt(10000))),
                    ],
                ),
            ),
            (
                "maxResults"@,
                property_view(
                    "integer"@,
                    "Maximum number of results to return (default: 30, range: 10-100)"@,
                    seq![
                        ("minimum"@, JsonView::Number(JsonNumberView::PosInt(10))),
                        ("maximum"@, JsonView::Number(JsonNumberView::PosInt(100))),
                        ("default"@, JsonView::Number(JsonNumberView::PosInt(30))),
                    ],
                ),
            ),
            (
                "servers"@,
                property_view(
                    "array"@,
                    "Optional list of specific MCP servers to query (default: all configured)"@,
                    seq![("items"@, JsonView::Object(seq![("type"@, JsonView::Str("string"@))]))],
                ),
            ),
        ],
        seq![
            ("required"@, JsonView::Array(seq![JsonView::Str("query"@)])),
            ("additionalProperties"@, JsonView::Bool(false)),
        ],
    )
}

/// The definition of the aggregator tool.
pub open spec fn aggregator_tool_view() -> JsonView {
    tool_view(AGGREGATOR_TOOL_PREFIX@ + "context_aggregator"@, AGGREGATOR_DESCRIPTION@, aggregator_schema_view())
}

/// The definitions of the aggregator tools: the context aggregator alone.
pub fn get_aggregator_tools() -> (r: Vec<Json>)
    ensures
        items_view(r@) == seq![aggregator_tool_view()],
{
    let string_type = Json::Object(entries1(kv("type", Json::string("string"))));
    let schema = object_schema(
        entries3(
            kv(
                "query",
                property(
                    "string",
                    "The user query to aggregate context for",
                    entries2(kv("minLength", integer(1)), kv("maxLength", integer(10000))),
                ),
            ),
            kv(
                "maxResults",
                property(
                    "integer",
                    "Maximum number of results to return (default: 30, range: 10-100)",
                    entries3(kv("minimum", integer(10)), kv("maximum", integer(100)), kv("default", integer(30))),
                ),
            ),
            kv(
                "servers",
                property(
                    "array",
                    "Optional list of specific MCP servers to query (default: all configured)",
                    entries1(kv("items", string_type)),
                ),
            ),
        ),
        entries2(kv("required", strings1("query")), kv("additionalProperties", Json::Bool(false))),
    );
    let tool = create_tool(concat(AGGREGATOR_TOOL_PREFIX, "context_aggregator"), AGGREGATOR_DESCRIPTION, schema);
    let tools = vec![tool];
    proof {
        lemma_items_view_ext(tools@, seq![aggregator_tool_view()]);
    }
    tools
}

/// A call of the context aggregator, as the proxy reads it.
#[derive(Debug, PartialEq, Eq)]
pub struct AggregatorRequest {
    pub query: String,
    pub max_results: u64,
    /// The servers named in the call, when it names any.
    pub servers: Option<Vec<String>>,
}

/// The strings among `items`, in order.
pub open spec fn strings_of(items: Seq<JsonView>) -> Seq<Seq<char>>
    decreases items.len(),
{
    if items.len() == 0 {
        Seq::empty()
    } else {
        let rest = strings_of(items.drop_last());
        match items.last() {
            JsonView::Str(s) => rest.push(s),
            _ => rest,
        }
    }
}

/// The view of a list of strings.
pub open spec fn texts(v: Seq<String>) -> Seq<Seq<char>> {
    Seq::new(v.len(), |i: int| v[i]@)
}

/// How a call of the aggregator is read: `query` must be a string;
/// `maxResults` defaults to 30; `servers`, when an array, keeps its strings.
pub open spec fn aggregator_request_spec(args: JsonView) -> Result<(Seq<char>, u64, Option<Seq<Seq<char>>>), Seq<char>> {
    match args.get_str("query"@) {
        None => Err("Missing query parameter"@),
        Some(q) => Ok(
            (
                q,
                match args.get("maxResults"@) {
                    Some(JsonView::Number(JsonNumberView::PosInt(n))) => n,
                    _ => 30,
                },
                match args.get("servers"@) {
                    Some(JsonView::Array(items)) => Some(strings_of(items)),
                    _ => None,
                },
            ),
        ),
    }
}

fn strings_in(items: &Vec<Json>) -> (r: Vec<String>)
    ensures
        texts(r@) == strings_of(items_view(items@)),
{
    let n = items.len();
    let mut out: Vec<String> = Vec::new();
    let mut i: usize = 0;
    proof {
        lemma_items_view(items@);
    }
    while i < n
        invariant
            n == items@.len(),
            i <= n,
            items_view(items@).len() == n,
            forall|j: int| 0 <= j < n ==> #[trigger] items_view(items@)[j] == crate::json::json_view(items@[j]),
            texts(out@) == strings_of(items_view(items@).subrange(0, i as int)),
        decreases n - i,
    {
        let ghost before = out@;
        proof {
            assert(items_view(items@).subrange(0, i + 1).drop_last() =~= items_view(items@).subrange(0, i as int));
            assert(items_view(items@)[i as int] == crate::json::json_view(items@[i as int]));
        }
        match &items[i] {
            Json::Str(s) => {
                out.push(s.clone());
                proof {
                    assert(texts(out@) =~= texts(before).push(s@));
                }
            },
            _ => {},
        }
        i = i + 1;
    }
    proof {
        assert(items_view(items@).subrange(0, n as int) =~= items_view(items@));
    }
    out
}

/// Reads a call of the context aggregator.
pub fn parse_aggregator_request(args: &Json) -> (r: Result<AggregatorRequest, String>)
    ensures
        match r {
            Ok(req) => aggregator_request_spec(args@) == Ok::<_, Seq<char>>(
                (
                    req.query@,
                    req.max_results,
                    match req.servers {
                        Some(v) => Some(texts(v@)),
                        None => None,
                    },
                ),
            ),
            Err(e) => aggregator_request_spec(args@) == Err::<(Seq<char>, u64, Option<Seq<Seq<char>>>), _>(
                e@,
            ),
        },
{
    let query = match args.get_str("query") {
        Some(q) => q.to_string(),
        None => {
            return Err("Missing query parameter".to_string());
        },
    };
    let max_results = match args.get("maxResults") {
        Some(Json::Number(crate::json::JsonNumber::PosInt(n))) => *n,
        _ => 30,
    };
    let servers = match args.get("servers") {
        Some(Json::Array(items)) => Some(strings_in(items)),
        _ => None,
    };
    Ok(AggregatorRequest { query, max_results, servers })
}

/// The token budget handed to the aggregator: a hundred per result, in
/// 32-bit arithmetic that wraps.
pub open spec fn token_budget(max_results: u64) -> u32 {
    ((max_results % 0x1_0000_0000) * 100 % 0x1_0000_0000) as u32
}

/// The token budget handed to the aggregator for `max_results` results.
pub fn aggregator_token_budget(max_results: u64) -> (r: u32)
    ensures
        r == token_budget(max_results),
{
    let m: u32 = (max_results % 0x1_0000_0000) as u32;
    m.wrapping_mul(100)
}

/// A configured server, as the aggregator sees it: its name and whether it
/// is enabled.
pub open spec fn selected(
    servers: Seq<(Seq<char>, bool)>,
    requested: Option<Seq<Seq<char>>>,
) -> Seq<Seq<char>>
    decreases servers.len(),
{
    if servers.len() == 0 {
        Seq::empty()
    } else {
        let rest = selected(servers.drop_last(), requested);
        let (name, enabled) = servers.last();
        let wanted = match requested {
            Some(r) => r.contains(name),
            None => true,
        };
        if wanted && enabled {
            rest.push(name)
        } else {
            rest
        }
    }
}

fn contains_text(v: &Vec<String>, s: &str) -> (r: bool)
    ensures
        r == texts(v@).contains(s@),
{
    let n = v.len();
    let mut i: usize = 0;
    while i < n
        invariant
            n == v@.len(),
            i <= n,
            forall|j: int| 0 <= j < i ==> v@[j]@ != s@,
        decreases n - i,
    {
        if str_eq(v[i].as_str(), s) {
            proof {
                assert(texts(v@)[i as int] == s@);
            }
            return true;
        }
        i = i + 1;
    }
    proof {
        if texts(v@).contains(s@) {
            let k = choose|k: int| 0 <= k < texts(v@).len() && texts(v@)[k] == s@;
            assert(v@[k]@ == s@);
        }
    }
    false
}

/// The names of the servers the aggregator consults: those enabled and,
/// when the call names servers, named in it; in configuration order.
pub fn select_servers(servers: &Vec<(String, bool)>, requested: &Option<Vec<String>>) -> (r: Vec<String>)
    ensures
        texts(r@) == selected(
            Seq::new(servers@.len(), |i: int| (servers@[i].0@, servers@[i].1)),
            match requested {
                Some(v) => Some(texts(v@)),
                None => None,
            },
        ),
{
    let ghost req = match requested {
        Some(v) => Some(texts(v@)),
        None => None,
    };
    let ghost all = Seq::new(servers@.len(), |i: int| (servers@[i].0@, servers@[i].1));
    let n = servers.len();
    let mut out: Vec<String> = Vec::new();
    let mut i: usize = 0;
    while i < n
        invariant
            n == servers@.len(),
            i <= n,
            all == Seq::new(servers@.len(), |i: int| (servers@[i].0@, servers@[i].1)),
            req == (match requested {
                Some(v) => Some(texts(v@)),
                None => None::<Seq<Seq<char>>>,
            }),
            texts(out@) == selected(all.subrange(0, i as int), req),
        decreases n - i,
    {
        let ghost before = out@;
        proof {
            assert(all.subrange(0, i + 1).drop_last() =~= all.subrange(0, i as int));
        }
        let wanted = match requested {
            Some(v) => contains_text(v, servers[i].0.as_str()),
            None => true,
        };
        if wanted && servers[i].1 {
            out.push(servers[i].0.clone());
            proof {
                assert(texts(out@) =~= texts(before).push(servers@[i as int].0@));
            }
        }
        i = i + 1;
    }
    proof {
        assert(all.subrange(0, n as int) =~= all);
    }
    out
}

/// The reply of the aggregator tool once the aggregator has run: its text,
/// or, when it stopped, its error (`Aggregation failed` when it gave none).
pub fn aggregator_reply(proceed: bool, error: Option<String>, text: String) -> (r: Result<Json, String>)
    ensures
        proceed ==> (r matches Ok(j) && j@ == text_result_view(text@)),
        !proceed ==> (r matches Err(e) && e@ == (match error {
            Some(m) => m@,
            None => "Aggregation failed"@,
        })),
{
    if !proceed {
        return Err(
            match error {
                Some(m) => m,
                None => "Aggregation failed".to_string(),
            },
        );
    }
    Ok(text_result(text))
}

/// Handles a call of the aggregator tool: the call is read, then the
/// aggregator must be available (`plugins_available`) and configured
/// (`plugins_configured`); the caller then runs it with the request.
pub fn handle_aggregator_tool(
    tool_name: &str,
    arguments: &Json,
    plugins_available: bool,
    plugins_configured: bool,
) -> (r: Result<AggregatorRequest, String>)
    ensures
        match aggregator_request_spec(arguments@) {
            Err(e) => r matches Err(m) && m@ == e,
            Ok(req) => if !plugins_available {
                r matches Err(m) && m@ == "Plugin manager not initialized"@
            } else if !plugins_configured {
                r matches Err(m) && m@ == "Plugins not configured"@
            } else {
                r matches Ok(a) && (a.query@, a.max_results, match a.servers {
                    Some(v) => Some(texts(v@)),
                    None => None,
                }) == req
            },
        },
{
    let request = match parse_aggregator_request(arguments) {
        Ok(r) => r,
        Err(e) => {
            return Err(e);
        },
    };
    if !plugins_available {
        return Err("Plugin manager not initialized".to_string());
    }
    if !plugins_configured {
        return Err("Plugins not configured".to_string());
    }
    Ok(request)
}

} // verus!
