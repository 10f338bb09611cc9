//! The replies of the web UI's HTTP API.
use vstd::prelude::*;
use crate::json::{Json, JsonView, JsonNumberView, kv, lemma_entries_view_ext};
use crate::proxy::error::ProxyError;
use crate::state::ServerState;
use crate::text::{concat, concat3, str_eq};

verus! {

/// A reply of the API: an HTTP status and a JSON body.
#[derive(Debug, PartialEq, Eq)]
pub struct ApiReply {
    pub status: u16,
    pub body: Json,
}

/// The name of a server state, as the API reports it.
pub open spec fn state_name(s: ServerState) -> Seq<char> {
    match s {
        ServerState::Starting => "Starting"@,
        ServerState::Running => "Running"@,
        ServerState::Stopping => "Stopping"@,
        ServerState::Stopped => "Stopped"@,
        ServerState::Failed => "Failed"@,
    }
}

/// The name of a server state, as the API reports it.
pub fn state_name_exec(s: ServerState) -> (r: &'static str)
    ensures
        r@ == state_name(s),
{
    match s {
        ServerState::Starting => "Starting",
        ServerState::Running => "Running",
        ServerState::Stopping => "Stopping",
        ServerState::Stopped => "Stopped",
        ServerState::Failed => "Failed",
    }
}

/// An object with a single string entry.
pub open spec fn one_entry(key: Seq<char>, value: Seq<char>) -> JsonView {
    JsonView::Object(seq![(key, JsonView::Str(value))])
}

fn one_entry_exec(key: &str, value: String) -> (r: Json)
    ensures
        r@ == one_entry(key@, value@),
{
    let ghost vv = value@;
    let e = vec![kv(key, Json::Str(value))];
    proof {
        lemma_entries_view_ext(e@, seq![(key@, JsonView::Str(vv))]);
    }
    Json::Object(e)
}

/// An action on a server that the API takes.
#[derive(Debug, Clone, Copy, PartialEq, Eq, Structural)]
pub enum ServerAction {
    Start,
    Stop,
    Restart,
}

/// Reads the action named in `POST /api/servers/{name}/{action}`; an
/// unknown action is refused with status 400.
pub fn parse_server_action(action: &str) -> (r: Result<ServerAction, ApiReply>)
    ensures
        action@ == "start"@ ==> r == Ok::<_, ApiReply>(ServerAction::Start),
        action@ == "stop"@ ==> r == Ok::<_, ApiReply>(ServerAction::Stop),
        action@ == "restart"@ ==> r == Ok::<_, ApiReply>(ServerAction::Restart),
        action@ != "start"@ && action@ != "stop"@ && action@ != "restart"@ ==> (r matches Err(reply)
            && reply.status == 400 && reply.body@ == one_entry("error"@, "Unknown action: "@ + action@)),
{
    proof {
        reveal_strlit("start");
        reveal_strlit("stop");
        reveal_strlit("restart");
        assert("start"@.len() == 5 && "stop"@.len() == 4 && "restart"@.len() == 7);
    }
    if str_eq(action, "start") {
        Ok(ServerAction::Start)
    } else if str_eq(action, "stop") {
        Ok(ServerAction::Stop)
    } else if str_eq(action, "restart") {
        Ok(ServerAction::Restart)
    } else {
        Err(ApiReply { status: 400, body: one_entry_exec("error", concat("Unknown action: ", action)) })
    }
}

/// The reply once a server action ran: 200 with a success message, or 500
/// with the error.
pub fn action_reply(name: &str, action: &str, outcome: Result<(), ProxyError>) -> (r: ApiReply)
    ensures
        match outcome {
            Ok(()) => r.status == 200 && r.body@ == JsonView::Object(
                seq![
                    ("status"@, JsonView::Str("success"@)),
                    ("message"@, JsonView::Str("Server "@ + name@ + " action "@ + action@ + " completed"@)),
                ],
            ),
            Err(e) => r.status == 500 && r.body@ == one_entry("error"@, e.text()),
        },
{
    match outcome {
        Ok(()) => {
            let head = concat3("Server ", name, " action ");
            let message = concat3(head.as_str(), action, " completed");
            let ghost mv = message@;
            let e = vec![kv("status", Json::string("success")), kv("message", Json::Str(message))];
            proof {
                lemma_entries_view_ext(
                    e@,
                    seq![("status"@, JsonView::Str("success"@)), ("message"@, JsonView::Str(mv))],
                );
            }
            ApiReply { status: 200, body: Json::Object(e) }
        },
        Err(e) => ApiReply { status: 500, body: one_entry_exec("error", e.message()) },
    }
}

/// An optional text, with `null` for none.
pub open spec fn text_or_null(o: Option<Seq<char>>) -> JsonView {
    match o {
        Some(t) => JsonView::Str(t),
        None => JsonView::Null,
    }
}

/// The view of an optional text.
pub open spec fn opt_text(o: Option<String>) -> Option<Seq<char>> {
    match o {
        Some(t) => Some(t@),
        None => None,
    }
}

/// A server's entry in the API: its name, state and restart count, its last
/// health check (see `crate::web::ws::health_check_entry`) and the time it
/// was last used, each `null` when there is none.
pub open spec fn server_entry_view(
    name: Seq<char>,
    state: Seq<char>,
    restart_count: u32,
    last_health_check: Option<JsonView>,
    last_access_time: Option<Seq<char>>,
) -> JsonView {
    JsonView::Object(
        seq![
            ("name"@, JsonView::Str(name)),
            ("state"@, JsonView::Str(state)),
            ("restart_count"@, JsonView::Number(JsonNumberView::PosInt(restart_count as u64))),
            ("last_health_check"@, crate::web::ws::or_null(last_health_check)),
            ("last_access_time"@, text_or_null(last_access_time)),
        ],
    )
}

/// A server's entry in the API. A state that could not be read (`None`) is
/// reported as `Unknown`.
pub fn server_entry(
    name: &str,
    state: Option<ServerState>,
    restart_count: u32,
    last_health_check: Option<Json>,
    last_access_time: Option<String>,
) -> (r: Json)
    ensures
        r@ == server_entry_view(
            name@,
            match state {
                Some(s) => state_name(s),
                None => "Unknown"@,
            },
            restart_count,
            crate::proxy::messages::opt_json(last_health_check),
            opt_text(last_access_time),
        ),
{
    let ghost hv = crate::proxy::messages::opt_json(last_health_check);
    let ghost tv = opt_text(last_access_time);
    let st = match state {
        Some(s) => state_name_exec(s),
        None => "Unknown",
    };
    let health = match last_health_check {
        Some(h) => h,
        None => Json::Null,
    };
    let access = match last_access_time {
        Some(t) => Json::Str(t),
        None => Json::Null,
    };
    let e = vec![
        kv("name", Json::string(name)),
        kv("state", Json::string(st)),
        kv("restart_count", Json::Number(crate::json::JsonNumber::PosInt(restart_count as u64))),
        kv("last_health_check", health),
        kv("last_access_time", access),
    ];
    proof {
        lemma_entries_view_ext(
            e@,
            server_entry_view(
                name@,
                match state {
                    Some(s) => state_name(s),
                    None => "Unknown"@,
                },
                restart_count,
                hv,
                tv,
            )->Object_0,
        );
    }
    Json::Object(e)
}

/// What the API reports of a server it knows: its state, restart count,
/// last health check and last access time.
pub struct ServerStatus {
    pub state: ServerState,
    pub restart_count: u32,
    pub last_health_check: Option<Json>,
    pub last_access_time: Option<String>,
}

/// The reply to `GET /api/servers/{name}`: the server's entry, or 404 when
/// the proxy does not know it.
pub fn server_status_reply(name: &str, found: Option<ServerStatus>) -> (r: ApiReply)
    ensures
        match found {
            Some(st) => r.status == 200 && r.body@ == server_entry_view(
                name@,
                state_name(st.state),
                st.restart_count,
                crate::proxy::messages::opt_json(st.last_health_check),
                opt_text(st.last_access_time),
            ),
            None => r.status == 404 && r.body@ == one_entry("error"@, "Server not found: "@ + name@),
        },
{
    match found {
        Some(st) => ApiReply {
            status: 200,
            body: server_entry(name, Some(st.state), st.restart_count, st.last_health_check, st.last_access_time),
        },
        None => ApiReply { status: 404, body: one_entry_exec("error", concat("Server not found: ", name)) },
    }
}

/// The reply to `PUT /api/config`: 200 when the new configuration was
/// taken, else 400 with the error.
pub fn config_update_reply(outcome: Result<(), ProxyError>) -> (r: ApiReply)
    ensures
        match outcome {
            Ok(()) => r.status == 200 && r.body@ == JsonView::Object(
                seq![
                    ("status"@, JsonView::Str("success"@)),
                    ("message"@, JsonView::Str("Configuration updated successfully"@)),
                ],
            ),
            Err(e) => r.status == 400 && r.body@ == one_entry("error"@, e.text()),
        },
{
    match outcome {
        Ok(()) => {
            let e = vec![
                kv("status", Json::string("success")),
                kv("message", Json::string("Configuration updated successfully")),
            ];
            proof {
                lemma_entries_view_ext(
                    e@,
                    seq![
                        ("status"@, JsonView::Str("success"@)),
                        ("message"@, JsonView::Str("Configuration updated successfully"@)),
                    ],
                );
            }
            ApiReply { status: 200, body: Json::Object(e) }
        },
        Err(e) => ApiReply { status: 400, body: one_entry_exec("error", e.message()) },
    }
}

/// The body of a health check reply for `service`.
pub fn health_reply(service: &str) -> (r: Json)
    ensures
        r@ == JsonView::Object(seq![("status"@, JsonView::Str("healthy"@)), ("service"@, JsonView::Str(service@))]),
{
    let e = vec![kv("status", Json::string("healthy")), kv("service", Json::string(service))];
    proof {
        lemma_entries_view_ext(
            e@,
            seq![("status"@, JsonView::Str("healthy"@)), ("service"@, JsonView::Str(service@))],
        );
    }
    Json::Object(e)
}

} // verus!
