//! JSON-RPC 2.0 messages: requests, responses and notifications, and their
//! JSON form.
//!
//! A message is read from a JSON object whose `jsonrpc` member is the string
//! "2.0". It is a request when it has an id (an integer or a string) and a
//! string method; otherwise a response when it has an id and its `error`, if
//! present and not null, is an error object; otherwise a notification when it
//! has a string method. Absent and null payloads are both read as absent.
use vstd::prelude::*;
use crate::json::{
    Json, JsonNumber, JsonNumberView, JsonView, entries_get, lemma_entries_view_ext,
    lemma_key_index_at, opt_view,
};
use crate::text::str_eq;

verus! {

/// A request id: an integer or a string.
#[derive(Debug)]
pub enum JsonRpcId {
    Number(i64),
    String(String),
}

/// An error carried by a response.
#[derive(Debug)]
pub struct JsonRpcError {
    pub code: i64,
    pub message: String,
    pub data: Option<Json>,
}

#[derive(Debug)]
pub struct JsonRpcRequest {
    pub id: JsonRpcId,
    pub method: String,
    pub params: Option<Json>,
}

#[derive(Debug)]
pub struct JsonRpcResponse {
    pub id: JsonRpcId,
    pub result: Option<Json>,
    pub error: Option<JsonRpcError>,
}

#[derive(Debug)]
pub struct JsonRpcNotification {
    pub method: String,
    pub params: Option<Json>,
}

/// A JSON-RPC 2.0 message.
#[derive(Debug)]
pub enum JsonRpcV2Message {
    Request(JsonRpcRequest),
    Response(JsonRpcResponse),
    Notification(JsonRpcNotification),
}

/// A JSON-RPC message, tagged by its protocol revision (only "2.0" exists).
#[derive(Debug)]
pub enum JsonRpcMessage {
    V2(JsonRpcV2Message),
}

/// The view of a request id.
pub enum IdView {
    Number(i64),
    Str(Seq<char>),
}

/// The view of an error object.
pub struct ErrorView {
    pub code: i64,
    pub message: Seq<char>,
    pub data: Option<JsonView>,
}

/// The view of a message.
pub enum MessageView {
    Request { id: IdView, method: Seq<char>, params: Option<JsonView> },
    Response { id: IdView, result: Option<JsonView>, error: Option<ErrorView> },
    Notification { method: Seq<char>, params: Option<JsonView> },
}

pub open spec fn opt_json_view(o: Option<Json>) -> Option<JsonView> {
    match o {
        Some(j) => Some(j@),
        None => None,
    }
}

impl View for JsonRpcId {
    type V = IdView;

    open spec fn view(&self) -> IdView {
        match self {
            JsonRpcId::Number(n) => IdView::Number(*n),
            JsonRpcId::String(s) => IdView::Str(s@),
        }
    }
}

impl View for JsonRpcError {
    type V = ErrorView;

    open spec fn view(&self) -> ErrorView {
        ErrorView { code: self.code, message: self.message@, data: opt_json_view(self.data) }
    }
}

pub open spec fn opt_error_view(o: Option<JsonRpcError>) -> Option<ErrorView> {
    match o {
        Some(e) => Some(e@),
        None => None,
    }
}

impl View for JsonRpcV2Message {
    type V = MessageView;

    open spec fn view(&self) -> MessageView {
        match self {
            JsonRpcV2Message::Request(r) => MessageView::Request {
                id: r.id@,
                method: r.method@,
                params: opt_json_view(r.params),
            },
            JsonRpcV2Message::Response(r) => MessageView::Response {
                id: r.id@,
                result: opt_json_view(r.result),
                error: opt_error_view(r.error),
            },
            JsonRpcV2Message::Notification(n) => MessageView::Notification {
                method: n.method@,
                params: opt_json_view(n.params),
            },
        }
    }
}

impl View for JsonRpcMessage {
    type V = MessageView;

    open spec fn view(&self) -> MessageView {
        match self {
            JsonRpcMessage::V2(m) => m@,
        }
    }
}

/// An id read from JSON: an integer that fits in `i64`, or a string.
pub open spec fn decode_id(v: Option<JsonView>) -> Option<IdView> {
    match v {
        Some(JsonView::Number(JsonNumberView::PosInt(u))) => if u <= i64::MAX {
            Some(IdView::Number(u as i64))
        } else {
            None
        },
        Some(JsonView::Number(JsonNumberView::NegInt(i))) => Some(IdView::Number(i)),
        Some(JsonView::Str(s)) => Some(IdView::Str(s)),
        _ => None,
    }
}

/// An integer read from JSON, when it fits in `i64`.
pub open spec fn decode_i64(v: Option<JsonView>) -> Option<i64> {
    match decode_id(v) {
        Some(IdView::Number(n)) => Some(n),
        _ => None,
    }
}

/// An optional payload: absent and null both read as absent.
pub open spec fn decode_opt(v: Option<JsonView>) -> Option<JsonView> {
    match v {
        Some(JsonView::Null) => None,
        _ => v,
    }
}

/// An error object: an integer code and a string message.
pub open spec fn decode_error(v: JsonView) -> Option<ErrorView> {
    match (decode_i64(v.get("code"@)), v.get_str("message"@)) {
        (Some(code), Some(message)) => Some(
            ErrorView { code, message, data: decode_opt(v.get("data"@)) },
        ),
        _ => None,
    }
}

/// The `error` member of a response: absent or null reads as no error; any
/// other value must be an error object.
pub open spec fn decode_error_member(v: Option<JsonView>) -> Option<Option<ErrorView>> {
    match v {
        None => Some(None),
        Some(JsonView::Null) => Some(None),
        Some(e) => match decode_error(e) {
            Some(ev) => Some(Some(ev)),
            None => None,
        },
    }
}

/// The message a JSON value holds, if any.
pub open spec fn decode_message(v: JsonView) -> Option<MessageView> {
    if v.get_str("jsonrpc"@) != Some("2.0"@) {
        None
    } else {
        match (decode_id(v.get("id"@)), v.get_str("method"@)) {
            (Some(id), Some(method)) => Some(
                MessageView::Request { id, method, params: decode_opt(v.get("params"@)) },
            ),
            (Some(id), None) => match decode_error_member(v.get("error"@)) {
                Some(error) => Some(
                    MessageView::Response { id, result: decode_opt(v.get("result"@)), error },
                ),
                None => None,
            },
            (None, Some(method)) => Some(
                MessageView::Notification { method, params: decode_opt(v.get("params"@)) },
            ),
            (None, None) => None,
        }
    }
}

/// The JSON form of an id.
pub open spec fn encode_id(id: IdView) -> JsonView {
    match id {
        IdView::Number(n) => if n >= 0 {
            JsonView::Number(JsonNumberView::PosInt(n as u64))
        } else {
            JsonView::Number(JsonNumberView::NegInt(n))
        },
        IdView::Str(s) => JsonView::Str(s),
    }
}

/// `entries` followed by `(key, value)` when there is a value.
pub open spec fn push_opt(
    entries: Seq<(Seq<char>, JsonView)>,
    key: Seq<char>,
    value: Option<JsonView>,
) -> Seq<(Seq<char>, JsonView)> {
    match value {
        Some(v) => entries.push((key, v)),
        None => entries,
    }
}

/// The JSON form of an error object.
pub open spec fn encode_error(e: ErrorView) -> JsonView {
    JsonView::Object(
        push_opt(
            seq![("code"@, encode_id(IdView::Number(e.code))), ("message"@, JsonView::Str(e.message))],
            "data"@,
            e.data,
        ),
    )
}

/// The JSON form of a message; absent payloads are left out.
pub open spec fn encode_message(m: MessageView) -> JsonView {
    match m {
        MessageView::Request { id, method, params } => JsonView::Object(
            push_opt(
                seq![
                    ("jsonrpc"@, JsonView::Str("2.0"@)),
                    ("id"@, encode_id(id)),
                    ("method"@, JsonView::Str(method)),
                ],
                "params"@,
                params,
            ),
        ),
        MessageView::Response { id, result, error } => JsonView::Object(
            push_opt(
                push_opt(
                    seq![("jsonrpc"@, JsonView::Str("2.0"@)), ("id"@, encode_id(id))],
                    "result"@,
                    result,
                ),
                "error"@,
                match error {
                    Some(e) => Some(encode_error(e)),
                    None => None,
                },
            ),
        ),
        MessageView::Notification { method, params } => JsonView::Object(
            push_opt(
                seq![("jsonrpc"@, JsonView::Str("2.0"@)), ("method"@, JsonView::Str(method))],
                "params"@,
                params,
            ),
        ),
    }
}

fn decode_id_exec(v: Option<&Json>) -> (r: Option<JsonRpcId>)
    ensures
        match r {
            Some(id) => decode_id(opt_view(v)) == Some(id@),
            None => decode_id(opt_view(v)) is None,
        },
{
    match v {
        Some(Json::Number(JsonNumber::PosInt(u))) => {
            if *u <= i64::MAX as u64 {
                Some(JsonRpcId::Number(*u as i64))
            } else {
                None
            }
        },
        Some(Json::Number(JsonNumber::NegInt(i))) => Some(JsonRpcId::Number(*i)),
        Some(Json::Str(s)) => Some(JsonRpcId::String(s.clone())),
        _ => None,
    }
}

fn decode_opt_exec(v: Option<&Json>) -> (r: Option<Json>)
    ensures
        opt_json_view(r) == decode_opt(opt_view(v)),
{
    match v {
        Some(Json::Null) => None,
        Some(x) => Some(x.deep_clone()),
        None => None,
    }
}

fn decode_error_exec(v: &Json) -> (r: Option<JsonRpcError>)
    ensures
        match r {
            Some(e) => decode_error(v@) == Some(e@),
            None => decode_error(v@) is None,
        },
{
    let code = match decode_id_exec(v.get("code")) {
        Some(JsonRpcId::Number(n)) => Some(n),
        _ => None,
    };
    match (code, v.get_str("message")) {
        (Some(code), Some(message)) => Some(
            JsonRpcError { code, message: message.to_string(), data: decode_opt_exec(v.get("data")) },
        ),
        _ => None,
    }
}

fn decode_error_member_exec(v: Option<&Json>) -> (r: Option<Option<JsonRpcError>>)
    ensures
        match r {
            Some(e) => decode_error_member(opt_view(v)) == Some(opt_error_view(e)),
            None => decode_error_member(opt_view(v)) is None,
        },
{
    match v {
        None => Some(None),
        Some(Json::Null) => Some(None),
        Some(e) => match decode_error_exec(e) {
            Some(ev) => Some(Some(ev)),
            None => None,
        },
    }
}

fn encode_id_exec(id: &JsonRpcId) -> (r: Json)
    ensures
        r@ == encode_id(id@),
{
    match id {
        JsonRpcId::Number(n) => if *n >= 0 {
            Json::Number(JsonNumber::PosInt(*n as u64))
        } else {
            Json::Number(JsonNumber::NegInt(*n))
        },
        JsonRpcId::String(s) => Json::Str(s.clone()),
    }
}

fn push_opt_exec(entries: &mut Vec<(String, Json)>, key: &str, value: &Option<Json>)
    ensures
        crate::json::entries_view(final(entries)@) == push_opt(
            crate::json::entries_view(old(entries)@),
            key@,
            opt_json_view(*value),
        ),
{
    let ghost before = entries@;
    match value {
        Some(v) => {
            entries.push((key.to_string(), v.deep_clone()));
            proof {
                assert(entries@.drop_last() =~= before);
            }
        },
        None => {},
    }
}

impl JsonRpcId {
    /// A copy of this id.
    pub fn copy(&self) -> (r: JsonRpcId)
        ensures
            r@ == self@,
    {
        match self {
            JsonRpcId::Number(n) => JsonRpcId::Number(*n),
            JsonRpcId::String(s) => JsonRpcId::String(s.clone()),
        }
    }
}

impl JsonRpcError {
    /// The JSON form of this error.
    pub fn to_json(&self) -> (r: Json)
        ensures
            r@ == encode_error(self@),
    {
        let mut entries: Vec<(String, Json)> = Vec::new();
        entries.push(("code".to_string(), encode_id_exec(&JsonRpcId::Number(self.code))));
        entries.push(("message".to_string(), Json::Str(self.message.clone())));
        proof {
            lemma_entries_view_ext(
                entries@,
                seq![("code"@, encode_id(IdView::Number(self.code))), ("message"@, JsonView::Str(self.message@))],
            );
        }
        push_opt_exec(&mut entries, "data", &self.data);
        Json::Object(entries)
    }
}

impl JsonRpcMessage {
    /// Reads a message from JSON; `None` when the value holds no message.
    pub fn from_json(v: &Json) -> (r: Option<JsonRpcMessage>)
        ensures
            match r {
                Some(m) => decode_message(v@) == Some(m@),
                None => decode_message(v@) is None,
            },
    {
        let is_v2 = match v.get_str("jsonrpc") {
            Some(s) => str_eq(s, "2.0"),
            None => false,
        };
        if !is_v2 {
            return None;
        }
        let id = decode_id_exec(v.get("id"));
        let method = v.get_str("method");
        match (id, method) {
            (Some(id), Some(method)) => Some(
                JsonRpcMessage::V2(
                    JsonRpcV2Message::Request(
                        JsonRpcRequest {
                            id,
                            method: method.to_string(),
                            params: decode_opt_exec(v.get("params")),
                        },
                    ),
                ),
            ),
            (Some(id), None) => match decode_error_member_exec(v.get("error")) {
                Some(error) => Some(
                    JsonRpcMessage::V2(
                        JsonRpcV2Message::Response(
                            JsonRpcResponse { id, result: decode_opt_exec(v.get("result")), error },
                        ),
                    ),
                ),
                None => None,
            },
            (None, Some(method)) => Some(
                JsonRpcMessage::V2(
                    JsonRpcV2Message::Notification(
                        JsonRpcNotification {
                            method: method.to_string(),
                            params: decode_opt_exec(v.get("params")),
                        },
                    ),
                ),
            ),
            (None, None) => None,
        }
    }

    /// The JSON form of this message.
    pub fn to_json(&self) -> (r: Json)
        ensures
            r@ == encode_message(self@),
    {
        let mut entries: Vec<(String, Json)> = Vec::new();
        entries.push(("jsonrpc".to_string(), Json::string("2.0")));
        match self {
            JsonRpcMessage::V2(JsonRpcV2Message::Request(req)) => {
                entries.push(("id".to_string(), encode_id_exec(&req.id)));
                entries.push(("method".to_string(), Json::Str(req.method.clone())));
                proof {
                    lemma_entries_view_ext(
                        entries@,
                        seq![
                            ("jsonrpc"@, JsonView::Str("2.0"@)),
                            ("id"@, encode_id(req.id@)),
                            ("method"@, JsonView::Str(req.method@)),
                        ],
                    );
                }
                push_opt_exec(&mut entries, "params", &req.params);
            },
            JsonRpcMessage::V2(JsonRpcV2Message::Response(resp)) => {
                entries.push(("id".to_string(), encode_id_exec(&resp.id)));
                proof {
                    lemma_entries_view_ext(
                        entries@,
                        seq![("jsonrpc"@, JsonView::Str("2.0"@)), ("id"@, encode_id(resp.id@))],
                    );
                }
                push_opt_exec(&mut entries, "result", &resp.result);
                let err = match &resp.error {
                    Some(e) => Some(e.to_json()),
                    None => None,
                };
                push_opt_exec(&mut entries, "error", &err);
            },
            JsonRpcMessage::V2(JsonRpcV2Message::Notification(n)) => {
                entries.push(("method".to_string(), Json::Str(n.method.clone())));
                proof {
                    lemma_entries_view_ext(
                        entries@,
                        seq![("jsonrpc"@, JsonView::Str("2.0"@)), ("method"@, JsonView::Str(n.method@))],
                    );
                }
                push_opt_exec(&mut entries, "params", &n.params);
            },
        }
        Json::Object(entries)
    }
}

/// The method name of the MCP ping request.
pub const PING_METHOD: &'static str = "ping";

/// The (empty) parameters of a ping request.
pub struct PingRequest {}

/// The (empty) result of a ping response.
pub struct PingResponse {}

/// A ping request with the given id and empty parameters.
pub fn create_ping_request(id: JsonRpcId) -> (r: JsonRpcMessage)
    ensures
        r@ == (MessageView::Request {
            id: id@,
            method: "ping"@,
            params: Some(JsonView::Object(Seq::empty())),
        }),
{
    JsonRpcMessage::V2(
        JsonRpcV2Message::Request(
            JsonRpcRequest {
                id,
                method: PING_METHOD.to_string(),
                params: Some(Json::empty_object()),
            },
        ),
    )
}

} // verus!

verus! {

use crate::json::lemma_key_index_none;

/// Whether a message carries no payload that is an explicit JSON null (such a
/// payload reads back as absent).
pub open spec fn no_null_payloads(m: MessageView) -> bool {
    match m {
        MessageView::Request { params, .. } => params != Some(JsonView::Null),
        MessageView::Notification { params, .. } => params != Some(JsonView::Null),
        MessageView::Response { result, error, .. } => {
            &&& result != Some(JsonView::Null)
            &&& match error {
                Some(e) => e.data != Some(JsonView::Null),
                None => true,
            }
        },
    }
}

proof fn lemma_get_at(e: Seq<(Seq<char>, JsonView)>, k: Seq<char>, i: int)
    requires
        0 <= i < e.len(),
        e[i].0 == k,
        forall|j: int| 0 <= j < i ==> e[j].0 != k,
    ensures
        entries_get(e, k) == Some(e[i].1),
{
    lemma_key_index_at(e, k, i);
}

proof fn lemma_get_absent(e: Seq<(Seq<char>, JsonView)>, k: Seq<char>)
    requires
        forall|j: int| 0 <= j < e.len() ==> e[j].0 != k,
    ensures
        entries_get(e, k) is None,
{
    lemma_key_index_none(e, k);
}

proof fn lemma_member_names_distinct()
    ensures
        "jsonrpc"@ != "id"@, "jsonrpc"@ != "method"@, "jsonrpc"@ != "params"@,
        "jsonrpc"@ != "result"@, "jsonrpc"@ != "error"@,
        "id"@ != "method"@, "id"@ != "params"@, "id"@ != "result"@, "id"@ != "error"@,
        "method"@ != "params"@, "method"@ != "result"@, "method"@ != "error"@,
        "params"@ != "result"@, "params"@ != "error"@, "result"@ != "error"@,
        "code"@ != "message"@, "code"@ != "data"@, "message"@ != "data"@,
{
    reveal_strlit("jsonrpc");
    reveal_strlit("id");
    reveal_strlit("method");
    reveal_strlit("params");
    reveal_strlit("result");
    reveal_strlit("error");
    reveal_strlit("code");
    reveal_strlit("message");
    reveal_strlit("data");
    assert("jsonrpc"@[0] != "id"@[0]);
    assert("jsonrpc"@[0] != "method"@[0]);
    assert("jsonrpc"@[0] != "params"@[0]);
    assert("jsonrpc"@[0] != "result"@[0]);
    assert("jsonrpc"@[0] != "error"@[0]);
    assert("id"@[0] != "method"@[0]);
    assert("id"@[0] != "params"@[0]);
    assert("id"@[0] != "result"@[0]);
    assert("id"@[0] != "error"@[0]);
    assert("method"@[0] != "params"@[0]);
    assert("method"@[0] != "result"@[0]);
    assert("method"@[0] != "error"@[0]);
    assert("params"@[0] != "result"@[0]);
    assert("params"@[0] != "error"@[0]);
    assert("result"@[0] != "error"@[0]);
    assert("code"@[0] != "message"@[0]);
    assert("code"@[0] != "data"@[0]);
    assert("message"@[0] != "data"@[0]);
}

proof fn lemma_id_round_trip(id: IdView)
    ensures
        decode_id(Some(encode_id(id))) == Some(id),
{
}

/// Writing a message as JSON and reading it back gives the same message,
/// provided none of its payloads is an explicit null.
pub proof fn lemma_message_round_trip(m: MessageView)
    requires
        no_null_payloads(m),
    ensures
        decode_message(encode_message(m)) == Some(m),
{
    lemma_member_names_distinct();
    match m {
        MessageView::Request { id, method, params } => {
            let base = seq![
                ("jsonrpc"@, JsonView::Str("2.0"@)),
                ("id"@, encode_id(id)),
                ("method"@, JsonView::Str(method)),
            ];
            let e = push_opt(base, "params"@, params);
            lemma_get_at(e, "jsonrpc"@, 0);
            lemma_get_at(e, "id"@, 1);
            lemma_get_at(e, "method"@, 2);
            if params is Some {
                lemma_get_at(e, "params"@, 3);
            } else {
                lemma_get_absent(e, "params"@);
            }
            lemma_id_round_trip(id);
        },
        MessageView::Notification { method, params } => {
            let base = seq![("jsonrpc"@, JsonView::Str("2.0"@)), ("method"@, JsonView::Str(method))];
            let e = push_opt(base, "params"@, params);
            lemma_get_at(e, "jsonrpc"@, 0);
            lemma_get_at(e, "method"@, 1);
            lemma_get_absent(e, "id"@);
            if params is Some {
                lemma_get_at(e, "params"@, 2);
            } else {
                lemma_get_absent(e, "params"@);
            }
        },
        MessageView::Response { id, result, error } => {
            let base = seq![("jsonrpc"@, JsonView::Str("2.0"@)), ("id"@, encode_id(id))];
            let e1 = push_opt(base, "result"@, result);
            let ev = match error {
                Some(x) => Some(encode_error(x)),
                None => None,
            };
            let e = push_opt(e1, "error"@, ev);
            lemma_get_at(e, "jsonrpc"@, 0);
            lemma_get_at(e, "id"@, 1);
            lemma_get_absent(e, "method"@);
            if result is Some {
                lemma_get_at(e, "result"@, 2);
            } else {
                lemma_get_absent(e, "result"@);
            }
            lemma_id_round_trip(id);
            match error {
                Some(x) => {
                    lemma_get_at(e, "error"@, e1.len() as int);
                    let ee = push_opt(
                        seq![("code"@, encode_id(IdView::Number(x.code))), ("message"@, JsonView::Str(x.message))],
                        "data"@,
                        x.data,
                    );
                    lemma_get_at(ee, "code"@, 0);
                    lemma_get_at(ee, "message"@, 1);
                    if x.data is Some {
                        lemma_get_at(ee, "data"@, 2);
                    } else {
                        lemma_get_absent(ee, "data"@);
                    }
                    lemma_id_round_trip(IdView::Number(x.code));
                },
                None => {
                    lemma_get_absent(e, "error"@);
                },
            }
        },
    }
}

} // verus!
