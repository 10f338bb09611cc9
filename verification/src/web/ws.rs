//! The live-update socket of the web UI: what a client's message asks for,
//! what a server looks like in an update, and when an update is sent.
use vstd::prelude::*;
use crate::json::{
    Json, JsonView, JsonNumber, JsonNumberView, count_json, count_view, items_view, int_json, int_view, kv,
    lemma_entries_view_ext,
};
use crate::state::ServerState;
use crate::text::{concat, str_eq};

verus! {

/// What a client's message on the socket asks for.
#[derive(Debug, PartialEq, Eq)]
pub enum WsCommand {
    /// Start sending the logs of `server`, under the subscription `key`.
    SubscribeLogs { server: String, key: String },
    /// Stop sending the logs of `server`, kept under the subscription `key`.
    UnsubscribeLogs { server: String, key: String },
    /// Anything else is ignored.
    Ignore,
}

/// Reads a client's message, given its `type` and its `server` field.
pub fn parse_ws_command(msg_type: &str, server: Option<String>) -> (r: WsCommand)
    ensures
        match server {
            Some(s) => if msg_type@ == "subscribe_logs"@ {
                r matches WsCommand::SubscribeLogs { server: t, key } && t@ == s@ && key@ == "logs_"@ + s@
            } else if msg_type@ == "unsubscribe_logs"@ {
                r matches WsCommand::UnsubscribeLogs { server: t, key } && t@ == s@ && key@ == "logs_"@ + s@
            } else {
                r is Ignore
            },
            None => r is Ignore,
        },
{
    match server {
        Some(s) => {
            if str_eq(msg_type, "subscribe_logs") {
                let key = concat("logs_", s.as_str());
                WsCommand::SubscribeLogs { server: s, key }
            } else if str_eq(msg_type, "unsubscribe_logs") {
                let key = concat("logs_", s.as_str());
                WsCommand::UnsubscribeLogs { server: s, key }
            } else {
                WsCommand::Ignore
            }
        },
        None => WsCommand::Ignore,
    }
}

/// The name of a server state in updates.
pub open spec fn state_word(s: ServerState) -> Seq<char> {
    match s {
        ServerState::Starting => "starting"@,
        ServerState::Running => "running"@,
        ServerState::Stopping => "stopping"@,
        ServerState::Stopped => "stopped"@,
        ServerState::Failed => "failed"@,
    }
}

fn state_word_exec(s: ServerState) -> (r: &'static str)
    ensures
        r@ == state_word(s),
{
    match s {
        ServerState::Starting => "starting",
        ServerState::Running => "running",
        ServerState::Stopping => "stopping",
        ServerState::Stopped => "stopped",
        ServerState::Failed => "failed",
    }
}

/// An optional value, with `null` for none.
pub open spec fn or_null(o: Option<JsonView>) -> JsonView {
    match o {
        Some(v) => v,
        None => JsonView::Null,
    }
}

/// A server in an update.
pub open spec fn ws_server_view(
    name: Seq<char>,
    state: ServerState,
    restart_count: u32,
    health_check_enabled: bool,
    last_health_check: Option<JsonView>,
    last_access_time: Option<Seq<char>>,
) -> JsonView {
    JsonView::Object(
        seq![
            ("name"@, JsonView::Str(name)),
            ("state"@, JsonView::Str(state_word(state))),
            ("restart_count"@, JsonView::Number(JsonNumberView::PosInt(restart_count as u64))),
            ("health_check_enabled"@, JsonView::Bool(health_check_enabled)),
            ("last_health_check"@, or_null(last_health_check)),
            (
                "last_access_time"@,
                match last_access_time {
                    Some(t) => JsonView::Str(t),
                    None => JsonView::Null,
                },
            ),
        ],
    )
}

/// A server in an update.
pub fn ws_server(
    name: &str,
    state: ServerState,
    restart_count: u32,
    health_check_enabled: bool,
    last_health_check: Option<Json>,
    last_access_time: Option<String>,
) -> (r: Json)
    ensures
        r@ == ws_server_view(
            name@,
            state,
            restart_count,
            health_check_enabled,
            crate::proxy::messages::opt_json(last_health_check),
            match last_access_time {
                Some(t) => Some(t@),
                None => None,
            },
        ),
{
    let ghost hv = crate::proxy::messages::opt_json(last_health_check);
    let ghost lat = last_access_time;
    let ghost tv = match &last_access_time {
        Some(t) => Some(t@),
        None => None::<Seq<char>>,
    };
    let health = match last_health_check {
        Some(h) => h,
        None => Json::Null,
    };
    let access = match last_access_time {
        Some(t) => Json::Str(t),
        None => Json::Null,
    };
    let e = vec![
        kv("name", Json::string(name)),
        kv("state", Json::string(state_word_exec(state))),
        kv("restart_count", Json::Number(JsonNumber::PosInt(restart_count as u64))),
        kv("health_check_enabled", Json::Bool(health_check_enabled)),
        kv("last_health_check", health),
        kv("last_access_time", access),
    ];
    proof {
        lemma_entries_view_ext(
            e@,
            ws_server_view(name@, state, restart_count, health_check_enabled, hv, tv)->Object_0,
        );
    }
    Json::Object(e)
}

/// The last health check of a server in updates: when it ran (RFC 3339),
/// whether it passed, how long the server took to answer, and the error.
pub open spec fn health_check_view(
    timestamp: Seq<char>,
    success: bool,
    response_time_ms: Option<u64>,
    error: Option<Seq<char>>,
) -> JsonView {
    JsonView::Object(
        seq![
            ("timestamp"@, JsonView::Str(timestamp)),
            ("success"@, JsonView::Bool(success)),
            (
                "response_time_ms"@,
                match response_time_ms {
                    Some(ms) => count_view(ms as nat),
                    None => JsonView::Null,
                },
            ),
            (
                "error"@,
                match error {
                    Some(e) => JsonView::Str(e),
                    None => JsonView::Null,
                },
            ),
        ],
    )
}

/// The last health check of a server in updates.
pub fn health_check_entry(timestamp: &str, success: bool, response_time_ms: Option<u64>, error: Option<String>) -> (r:
    Json)
    ensures
        r@ == health_check_view(
            timestamp@,
            success,
            response_time_ms,
            match error {
                Some(e) => Some(e@),
                None => None,
            },
        ),
{
    let ghost ev = match &error {
        Some(e) => Some(e@),
        None => None::<Seq<char>>,
    };
    let time = match response_time_ms {
        Some(ms) => count_json(ms),
        None => Json::Null,
    };
    let err = match error {
        Some(e) => Json::Str(e),
        None => Json::Null,
    };
    let e = vec![
        kv("timestamp", Json::string(timestamp)),
        kv("success", Json::Bool(success)),
        kv("response_time_ms", time),
        kv("error", err),
    ];
    proof {
        lemma_entries_view_ext(e@, health_check_view(timestamp@, success, response_time_ms, ev)->Object_0);
    }
    Json::Object(e)
}

/// The state sent to clients: the servers and two counts.
pub open spec fn state_update_view(servers: Seq<JsonView>, total_servers: i64, running_servers: i64) -> JsonView {
    JsonView::Object(
        seq![
            ("servers"@, JsonView::Array(servers)),
            (
                "stats"@,
                JsonView::Object(
                    seq![
                        ("total_servers"@, int_view(total_servers)),
                        ("running_servers"@, int_view(running_servers)),
                    ],
                ),
            ),
        ],
    )
}

/// The state sent to clients.
pub fn state_update(servers: Vec<Json>, total_servers: i64, running_servers: i64) -> (r: Json)
    ensures
        r@ == state_update_view(items_view(servers@), total_servers, running_servers),
{
    let ghost sv = items_view(servers@);
    let stats = vec![kv("total_servers", int_json(total_servers)), kv("running_servers", int_json(running_servers))];
    proof {
        lemma_entries_view_ext(stats@, state_update_view(sv, total_servers, running_servers)->Object_0[1].1->Object_0);
    }
    let e = vec![kv("servers", Json::Array(servers)), kv("stats", Json::Object(stats))];
    proof {
        lemma_entries_view_ext(e@, state_update_view(sv, total_servers, running_servers)->Object_0);
    }
    Json::Object(e)
}

/// A message on the socket: its type and data.
pub open spec fn ws_message_view(kind: Seq<char>, data: JsonView) -> JsonView {
    JsonView::Object(seq![("type"@, JsonView::Str(kind)), ("data"@, data)])
}

fn ws_message(kind: &str, data: Json) -> (r: Json)
    ensures
        r@ == ws_message_view(kind@, data@),
{
    let ghost dv = data@;
    let e = vec![kv("type", Json::string(kind)), kv("data", data)];
    proof {
        lemma_entries_view_ext(e@, ws_message_view(kind@, dv)->Object_0);
    }
    Json::Object(e)
}

/// A client's session: the state it was last sent.
pub struct WsSession {
    previous: Json,
}

impl WsSession {
    /// The state the client was last sent.
    pub closed spec fn spec_previous(&self) -> JsonView {
        self.previous@
    }

    /// A session that starts by sending `initial` as an `initial` message.
    pub fn new(initial: Json) -> (r: (WsSession, Json))
        ensures
            r.0.spec_previous() == initial@,
            r.1@ == ws_message_view("initial"@, initial@),
    {
        let copy = initial.deep_clone();
        (WsSession { previous: initial }, ws_message("initial", copy))
    }

    /// On each tick: when the state changed since it was last sent, an
    /// `update` message with the new state, which becomes the last sent.
    pub fn on_tick(&mut self, current: Json) -> (r: Option<Json>)
        ensures
            current@ == old(self).spec_previous() ==> r is None && final(self).spec_previous()
                == old(self).spec_previous(),
            current@ != old(self).spec_previous() ==> (r matches Some(m) && m@ == ws_message_view(
                "update"@,
                current@,
            )) && final(self).spec_previous() == current@,
    {
        if current.same_as(&self.previous) {
            None
        } else {
            let copy = current.deep_clone();
            self.previous = current;
            Some(ws_message("update", copy))
        }
    }
}

/// A log line sent to a subscribed client.
pub fn log_message(server: &str, timestamp: &str, level: &str, message: &str) -> (r: Json)
    ensures
        r@ == ws_message_view(
            "log"@,
            JsonView::Object(
                seq![
                    ("server"@, JsonView::Str(server@)),
                    ("timestamp"@, JsonView::Str(timestamp@)),
                    ("level"@, JsonView::Str(level@)),
                    ("message"@, JsonView::Str(message@)),
                ],
            ),
        ),
{
    let e = vec![
        kv("server", Json::string(server)),
        kv("timestamp", Json::string(timestamp)),
        kv("level", Json::string(level)),
        kv("message", Json::string(message)),
    ];
    proof {
        lemma_entries_view_ext(
            e@,
            seq![
                ("server"@, JsonView::Str(server@)),
                ("timestamp"@, JsonView::Str(timestamp@)),
                ("level"@, JsonView::Str(level@)),
                ("message"@, JsonView::Str(message@)),
            ],
        );
    }
    ws_message("log", Json::Object(e))
}

} // verus!
