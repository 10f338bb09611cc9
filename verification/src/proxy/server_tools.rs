//! The proxy's own tools for managing backend servers: their definitions,
//! how a call of one is read, and the replies that do not need server state.
use vstd::prelude::*;
use crate::json::{Json, JsonView, count_json, count_view, items_view, kv, lemma_entries_view_ext, lemma_items_view_ext};
use crate::state::ServerState;
use crate::web::api::{state_name, state_name_exec};
use crate::proxy::content::{create_tool, text_content, text_content_view, text_result, text_result_view, tool_view};
use crate::text::{concat, concat3, str_eq};

verus! {

/// The prefix that marks a server management tool.
pub const SERVER_TOOL_PREFIX: &'static str = "mcp__proxy__server__";

/// The server management tools, by the part of the name after the prefix.
pub open spec fn server_tool_suffixes() -> Seq<Seq<char>> {
    seq!["list"@, "enable"@, "disable"@, "restart"@, "start"@, "stop"@]
}

/// What each server management tool is for, in the order of `server_tool_suffixes`.
pub open spec fn server_tool_descriptions() -> Seq<Seq<char>> {
    seq![
        "List all backend MCP servers and their status"@,
        "Enable a stopped backend MCP server"@,
        "Disable a running backend MCP server"@,
        "Restart a backend MCP server"@,
        "Start a stopped backend MCP server"@,
        "Stop a running backend MCP server"@,
    ]
}

/// The input schema of the list tool: an object with no properties.
pub open spec fn no_argument_schema() -> JsonView {
    JsonView::Object(
        seq![
            ("type"@, JsonView::Str("object"@)),
            ("properties"@, JsonView::Object(Seq::empty())),
            ("additionalProperties"@, JsonView::Bool(false)),
        ],
    )
}

/// The input schema of a tool that acts on one named server.
pub open spec fn server_name_schema(action: Seq<char>) -> JsonView {
    JsonView::Object(
        seq![
            ("type"@, JsonView::Str("object"@)),
            (
                "properties"@,
                JsonView::Object(
                    seq![
                        (
                            "server_name"@,
                            JsonView::Object(
                                seq![
                                    ("type"@, JsonView::Str("string"@)),
                                    ("description"@, JsonView::Str("Name of the server to "@ + action)),
                                ],
                            ),
                        ),
                    ],
                ),
            ),
            ("required"@, JsonView::Array(seq![JsonView::Str("server_name"@)])),
        ],
    )
}

/// The definition of the `i`-th server management tool.
pub open spec fn server_tool_view(i: int) -> JsonView {
    let suffix = server_tool_suffixes()[i];
    tool_view(
        SERVER_TOOL_PREFIX@ + suffix,
        server_tool_descriptions()[i],
        if i == 0 { no_argument_schema() } else { server_name_schema(suffix) },
    )
}

fn no_argument_schema_exec() -> (r: Json)
    ensures
        r@ == no_argument_schema(),
{
    let entries = vec![
        kv("type", Json::string("object")),
        kv("properties", Json::empty_object()),
        kv("additionalProperties", Json::Bool(false)),
    ];
    proof {
        lemma_entries_view_ext(entries@, no_argument_schema()->Object_0);
    }
    Json::Object(entries)
}

fn server_name_schema_exec(action: &str) -> (r: Json)
    ensures
        r@ == server_name_schema(action@),
{
    let ghost whole = server_name_schema(action@);
    let description = concat("Name of the server to ", action);
    let field = vec![kv("type", Json::string("string")), kv("description", Json::Str(description))];
    proof {
        lemma_entries_view_ext(field@, whole->Object_0[1].1->Object_0[0].1->Object_0);
    }
    let properties = vec![kv("server_name", Json::Object(field))];
    proof {
        lemma_entries_view_ext(properties@, whole->Object_0[1].1->Object_0);
    }
    let required = vec![Json::string("server_name")];
    proof {
        lemma_items_view_ext(required@, seq![JsonView::Str("server_name"@)]);
    }
    let entries = vec![
        kv("type", Json::string("object")),
        kv("properties", Json::Object(properties)),
        kv("required", Json::Array(required)),
    ];
    proof {
        lemma_entries_view_ext(entries@, whole->Object_0);
    }
    Json::Object(entries)
}

fn server_tool(suffix: &str, description: &str, takes_name: bool) -> (r: Json)
    ensures
        r@ == tool_view(
            SERVER_TOOL_PREFIX@ + suffix@,
            description@,
            if takes_name { server_name_schema(suffix@) } else { no_argument_schema() },
        ),
{
    let schema = if takes_name { server_name_schema_exec(suffix) } else { no_argument_schema_exec() };
    create_tool(concat(SERVER_TOOL_PREFIX, suffix), description, schema)
}

/// The definitions of the proxy's server management tools.
pub fn get_server_tools() -> (r: Vec<Json>)
    ensures
        r@.len() == 6,
        forall|i: int| 0 <= i < 6 ==> #[trigger] items_view(r@)[i] == server_tool_view(i),
{
    let tools = vec![
        server_tool("list", "List all backend MCP servers and their status", false),
        server_tool("enable", "Enable a stopped backend MCP server", true),
        server_tool("disable", "Disable a running backend MCP server", true),
        server_tool("restart", "Restart a backend MCP server", true),
        server_tool("start", "Start a stopped backend MCP server", true),
        server_tool("stop", "Stop a running backend MCP server", true),
    ];
    proof {
        let t = Seq::new(6, |i: int| server_tool_view(i));
        lemma_items_view_ext(tools@, t);
    }
    tools
}

/// A call of a server management tool, as the proxy reads it.
#[derive(Debug, PartialEq, Eq)]
pub enum ServerToolCall {
    List,
    Enable(String),
    Disable(String),
    Restart(String),
    Start(String),
    Stop(String),
}

/// The view of a server tool call: which tool, by its suffix, and the
/// server it names (empty for the list tool).
pub open spec fn server_tool_call_view(c: ServerToolCall) -> (Seq<char>, Seq<char>) {
    match c {
        ServerToolCall::List => ("list"@, Seq::empty()),
        ServerToolCall::Enable(n) => ("enable"@, n@),
        ServerToolCall::Disable(n) => ("disable"@, n@),
        ServerToolCall::Restart(n) => ("restart"@, n@),
        ServerToolCall::Start(n) => ("start"@, n@),
        ServerToolCall::Stop(n) => ("stop"@, n@),
    }
}

/// Whether `tool` is the suffix of one of the server management tools.
pub open spec fn is_server_tool(tool: Seq<char>) -> bool {
    exists|i: int| 0 <= i < 6 && server_tool_suffixes()[i] == tool
}

/// How a server tool call is read: unknown tools are refused first, then a
/// tool that acts on a server needs a string `server_name` argument.
pub open spec fn server_tool_call_spec(tool: Seq<char>, arguments: JsonView) -> Result<
    (Seq<char>, Seq<char>),
    Seq<char>,
> {
    if !is_server_tool(tool) {
        Err("Unknown server tool: "@ + tool)
    } else if tool == "list"@ {
        Ok(("list"@, Seq::empty()))
    } else {
        match arguments.get_str("server_name"@) {
            Some(n) => Ok((tool, n)),
            None => Err("Missing server_name"@),
        }
    }
}

/// Reads a call of the server management tool `tool` (the part of its name
/// after the prefix) with the given arguments.
pub fn parse_server_tool(tool: &str, arguments: &Json) -> (r: Result<ServerToolCall, String>)
    ensures
        match r {
            Ok(c) => server_tool_call_spec(tool@, arguments@) == Ok::<_, Seq<char>>(
                server_tool_call_view(c),
            ),
            Err(e) => server_tool_call_spec(tool@, arguments@) == Err::<(Seq<char>, Seq<char>), _>(
                e@,
            ),
        },
{
    let which: u8 = if str_eq(tool, "list") {
        0
    } else if str_eq(tool, "enable") {
        1
    } else if str_eq(tool, "disable") {
        2
    } else if str_eq(tool, "restart") {
        3
    } else if str_eq(tool, "start") {
        4
    } else if str_eq(tool, "stop") {
        5
    } else {
        6
    };
    if which == 6 {
        proof {
            assert forall|i: int| 0 <= i < 6 implies server_tool_suffixes()[i] != tool@ by {}
        }
        return Err(concat("Unknown server tool: ", tool));
    }
    assert(server_tool_suffixes()[which as int] == tool@);
    if which == 0 {
        return Ok(ServerToolCall::List);
    }
    let name = match arguments.get_str("server_name") {
        Some(n) => n.to_string(),
        None => {
            return Err("Missing server_name".to_string());
        },
    };
    if which == 1 {
        Ok(ServerToolCall::Enable(name))
    } else if which == 2 {
        Ok(ServerToolCall::Disable(name))
    } else if which == 3 {
        Ok(ServerToolCall::Restart(name))
    } else if which == 4 {
        Ok(ServerToolCall::Start(name))
    } else {
        Ok(ServerToolCall::Stop(name))
    }
}

/// The reply to enabling or disabling a server, given whether the
/// configuration knows it.
pub open spec fn toggle_reply_spec(name: Seq<char>, enable: bool, known: bool) -> Result<JsonView, Seq<char>> {
    if known {
        Ok(
            text_result_view(
                "Server "@ + name + if enable { " enabled"@ } else { " disabled"@ },
            ),
        )
    } else {
        Err("Server "@ + name + " not found"@)
    }
}

/// The reply to enabling (`enable`) or disabling a server named `name`;
/// `known` says whether the configuration has a server of that name, whose
/// `enabled` flag the caller then sets.
pub fn toggle_reply(name: &str, enable: bool, known: bool) -> (r: Result<Json, String>)
    ensures
        match r {
            Ok(j) => toggle_reply_spec(name@, enable, known) == Ok::<_, Seq<char>>(j@),
            Err(e) => toggle_reply_spec(name@, enable, known) == Err::<JsonView, _>(e@),
        },
{
    if known {
        let suffix = if enable { " enabled" } else { " disabled" };
        Ok(text_result(concat3("Server ", name, suffix)))
    } else {
        Err(concat3("Server ", name, " not found"))
    }
}

/// The reply to a restart, start or stop request, which the proxy
/// acknowledges without acting on it yet.
pub fn request_acknowledged(name: &str, action: &str) -> (r: Json)
    ensures
        r@ == text_result_view(
            "Server "@ + name@ + " "@ + action@ + " requested (not yet implemented)"@,
        ),
{
    let head = concat3("Server ", name, " ");
    let text = concat3(head.as_str(), action, " requested (not yet implemented)");
    text_result(text)
}

/// One server in the list tool's reply.
pub open spec fn server_list_entry_view(
    name: Seq<char>,
    state: ServerState,
    restart_count: u32,
    last_access_time: Option<Seq<char>>,
) -> JsonView {
    JsonView::Object(
        seq![
            ("name"@, JsonView::Str(name)),
            ("state"@, JsonView::Str(state_name(state))),
            ("restart_count"@, count_view(restart_count as nat)),
            (
                "last_access_time"@,
                match last_access_time {
                    Some(t) => JsonView::Str(t),
                    None => JsonView::Null,
                },
            ),
        ],
    )
}

/// One server in the list tool's reply; the time it was last used, when it
/// was, is in RFC 3339 form.
pub fn server_list_entry(name: &str, state: ServerState, restart_count: u32, last_access_time: Option<String>) -> (r:
    Json)
    ensures
        r@ == server_list_entry_view(
            name@,
            state,
            restart_count,
            match last_access_time {
                Some(t) => Some(t@),
                None => None,
            },
        ),
{
    let ghost tv = match &last_access_time {
        Some(t) => Some(t@),
        None => None::<Seq<char>>,
    };
    let access = match last_access_time {
        Some(t) => Json::Str(t),
        None => Json::Null,
    };
    let e = vec![
        kv("name", Json::string(name)),
        kv("state", Json::string(state_name_exec(state))),
        kv("restart_count", count_json(restart_count as u64)),
        kv("last_access_time", access),
    ];
    proof {
        lemma_entries_view_ext(e@, server_list_entry_view(name@, state, restart_count, tv)->Object_0);
    }
    Json::Object(e)
}

/// The listing that the list tool's text shows: the servers under `servers`.
pub fn server_listing(servers: &Vec<Json>) -> (r: Json)
    ensures
        r@ == JsonView::Object(seq![("servers"@, JsonView::Array(items_view(servers@)))]),
{
    let items = crate::proxy::handler::clone_items(servers);
    let ghost iv = items_view(items@);
    let e = vec![kv("servers", Json::Array(items))];
    proof {
        lemma_entries_view_ext(e@, seq![("servers"@, JsonView::Array(iv))]);
    }
    Json::Object(e)
}

/// The reply to the list tool: the listing as pretty-printed text, and the
/// server entries themselves.
pub fn server_list_reply(text: String, servers: Vec<Json>) -> (r: Json)
    ensures
        r@ == JsonView::Object(
            seq![("content"@, text_content_view(text@)), ("servers"@, JsonView::Array(items_view(servers@)))],
        ),
{
    let ghost tv = text@;
    let ghost sv = items_view(servers@);
    let entries = vec![kv("content", text_content(text)), kv("servers", Json::Array(servers))];
    proof {
        lemma_entries_view_ext(
            entries@,
            seq![("content"@, text_content_view(tv)), ("servers"@, JsonView::Array(sv))],
        );
    }
    Json::Object(entries)
}

/// What handling a server management tool comes to.
#[derive(Debug, PartialEq, Eq)]
pub enum ServerToolReply {
    /// The reply is ready.
    Done(Json),
    /// The list tool: the caller lists the servers (see `server_list_reply`).
    ListServers,
}

/// The position of the first configured server called `name`, or -1.
pub open spec fn config_index(configs: Seq<(String, bool)>, name: Seq<char>) -> int
    decreases configs.len(),
{
    if configs.len() == 0 {
        -1
    } else {
        let k = config_index(configs.drop_last(), name);
        if k >= 0 {
            k
        } else if configs.last().0@ == name {
            configs.len() - 1
        } else {
            -1
        }
    }
}

proof fn lemma_config_index(configs: Seq<(String, bool)>, name: Seq<char>)
    ensures
        -1 <= config_index(configs, name) < configs.len(),
        config_index(configs, name) >= 0 ==> configs[config_index(configs, name)].0@ == name,
        forall|j: int|
            0 <= j < configs.len() && (config_index(configs, name) == -1 || j < config_index(configs, name))
                ==> #[trigger] configs[j].0@ != name,
    decreases configs.len(),
{
    if configs.len() > 0 {
        let d = configs.drop_last();
        lemma_config_index(d, name);
        assert forall|j: int|
            0 <= j < configs.len() && (config_index(configs, name) == -1 || j < config_index(configs, name))
                implies #[trigger] configs[j].0@ != name by {
            if j < configs.len() - 1 {
                assert(d[j] == configs[j]);
            }
        }
    }
}

fn find_config(configs: &Vec<(String, bool)>, name: &str) -> (r: Option<usize>)
    ensures
        match r {
            Some(i) => config_index(configs@, name@) == i && i < configs@.len(),
            None => config_index(configs@, name@) == -1,
        },
{
    proof {
        lemma_config_index(configs@, name@);
    }
    let n = configs.len();
    let mut i: usize = 0;
    while i < n
        invariant
            n == configs@.len(),
            i <= n,
            forall|j: int| 0 <= j < i ==> #[trigger] configs@[j].0@ != name@,
        decreases n - i,
    {
        if str_eq(configs[i].0.as_str(), name) {
            proof {
                lemma_config_index(configs@, name@);
                let f = config_index(configs@, name@);
                if f == -1 || (i as int) < f {
                    assert(configs@[i as int].0@ != name@);
                }
            }
            return Some(i);
        }
        i = i + 1;
    }
    proof {
        lemma_config_index(configs@, name@);
        let f = config_index(configs@, name@);
        if f >= 0 {
            assert(configs@[f].0@ == name@);
        }
    }
    None
}

/// Handles a call of the server management tool `tool_name` with
/// `arguments`. `configs` holds each configured server's name and whether it
/// is enabled; enabling or disabling a server sets its flag there.
pub fn handle_server_tool(tool_name: &str, arguments: &Json, configs: &mut Vec<(String, bool)>) -> (r: Result<
    ServerToolReply,
    String,
>)
    ensures
        match server_tool_call_spec(tool_name@, arguments@) {
            Err(e) => r matches Err(m) && m@ == e && final(configs)@ == old(configs)@,
            Ok((tool, name)) => if tool == "list"@ {
                r == Ok::<_, String>(ServerToolReply::ListServers) && final(configs)@ == old(configs)@
            } else if tool == "enable"@ || tool == "disable"@ {
                let k = config_index(old(configs)@, name);
                if k >= 0 {
                    (r matches Ok(ServerToolReply::Done(j)) && Ok::<_, Seq<char>>(j@) == toggle_reply_spec(
                        name,
                        tool == "enable"@,
                        true,
                    )) && final(configs)@ == old(configs)@.update(k, (old(configs)@[k].0, tool == "enable"@))
                } else {
                    (r matches Err(m) && Err::<JsonView, _>(m@) == toggle_reply_spec(name, tool == "enable"@, false))
                        && final(configs)@ == old(configs)@
                }
            } else {
                (r matches Ok(ServerToolReply::Done(j)) && j@ == text_result_view(
                    "Server "@ + name + " "@ + tool + " requested (not yet implemented)"@,
                )) && final(configs)@ == old(configs)@
            },
        },
{
    let call = match parse_server_tool(tool_name, arguments) {
        Ok(c) => c,
        Err(e) => {
            return Err(e);
        },
    };
    proof {
        reveal_strlit("list");
        reveal_strlit("enable");
        reveal_strlit("disable");
        reveal_strlit("restart");
        reveal_strlit("start");
        reveal_strlit("stop");
        assert("list"@.len() == 4 && "enable"@.len() == 6 && "disable"@.len() == 7);
        assert("restart"@.len() == 7 && "start"@.len() == 5 && "stop"@.len() == 4);
        assert("list"@[0] == 'l' && "stop"@[0] == 's' && "disable"@[0] == 'd' && "restart"@[0] == 'r');
    }
    match call {
        ServerToolCall::List => Ok(ServerToolReply::ListServers),
        ServerToolCall::Enable(name) => toggle(configs, name, true),
        ServerToolCall::Disable(name) => toggle(configs, name, false),
        ServerToolCall::Restart(name) => Ok(ServerToolReply::Done(request_acknowledged(name.as_str(), "restart"))),
        ServerToolCall::Start(name) => Ok(ServerToolReply::Done(request_acknowledged(name.as_str(), "start"))),
        ServerToolCall::Stop(name) => Ok(ServerToolReply::Done(request_acknowledged(name.as_str(), "stop"))),
    }
}

fn toggle(configs: &mut Vec<(String, bool)>, name: String, enable: bool) -> (r: Result<ServerToolReply, String>)
    ensures
        ({
            let k = config_index(old(configs)@, name@);
            if k >= 0 {
                (r matches Ok(ServerToolReply::Done(j)) && Ok::<_, Seq<char>>(j@) == toggle_reply_spec(name@, enable, true))
                    && final(configs)@ == old(configs)@.update(k, (old(configs)@[k].0, enable))
            } else {
                (r matches Err(m) && Err::<JsonView, _>(m@) == toggle_reply_spec(name@, enable, false))
                    && final(configs)@ == old(configs)@
            }
        }),
{
    match find_config(configs, name.as_str()) {
        Some(i) => {
            let key = configs[i].0.clone();
            configs.set(i, (key, enable));
            match toggle_reply(name.as_str(), enable, true) {
                Ok(j) => Ok(ServerToolReply::Done(j)),
                Err(e) => Err(e),
            }
        },
        None => match toggle_reply(name.as_str(), enable, false) {
            Ok(j) => Ok(ServerToolReply::Done(j)),
            Err(e) => Err(e),
        },
    }
}

} // verus!
