//! JSON-RPC 2.0 messages exchanged with the agent process, one per line.

use vstd::prelude::*;
use vstd::string::*;
use crate::json::{JsonNumber, JsonValue, JsonView, obj, jstr, juint, push_field, make_object, fields_view, json_string, json_uint,
    json_text, json_line};

verus! {

/// A request from the gateway to the agent.
#[derive(Debug)]
pub struct JsonRpcRequest {
    pub jsonrpc: String,
    pub method: String,
    pub params: JsonValue,
    pub id: u64,
}

/// The error member of a response.
#[derive(Debug)]
pub struct JsonRpcError {
    pub code: i64,
    pub message: String,
    pub data: Option<JsonValue>,
}

/// A response from the agent to one request, matched by `id`.
#[derive(Debug)]
pub struct JsonRpcResponse {
    pub jsonrpc: String,
    pub result: Option<JsonValue>,
    pub error: Option<JsonRpcError>,
    pub id: u64,
}

/// A notification: a message without `id` that expects no answer.
#[derive(Debug)]
pub struct JsonRpcNotification {
    pub jsonrpc: String,
    pub method: String,
    pub params: JsonValue,
}

pub struct RequestView {
    pub jsonrpc: Seq<char>,
    pub method: Seq<char>,
    pub params: JsonView,
    pub id: u64,
}

pub struct ErrorView {
    pub code: i64,
    pub message: Seq<char>,
    pub data: Option<JsonView>,
}

pub struct ResponseView {
    pub jsonrpc: Seq<char>,
    pub result: Option<JsonView>,
    pub error: Option<ErrorView>,
    pub id: u64,
}

pub struct NotificationView {
    pub jsonrpc: Seq<char>,
    pub method: Seq<char>,
    pub params: JsonView,
}

/// The view of an optional JSON value.
pub open spec fn opt_view(v: Option<JsonValue>) -> Option<JsonView> {
    match v {
        Some(x) => Some(x@),
        None => None,
    }
}

impl View for JsonRpcRequest {
    type V = RequestView;

    open spec fn view(&self) -> RequestView {
        RequestView { jsonrpc: self.jsonrpc@, method: self.method@, params: self.params@, id: self.id }
    }
}

impl View for JsonRpcError {
    type V = ErrorView;

    open spec fn view(&self) -> ErrorView {
        ErrorView { code: self.code, message: self.message@, data: opt_view(self.data) }
    }
}

impl View for JsonRpcResponse {
    type V = ResponseView;

    open spec fn view(&self) -> ResponseView {
        ResponseView {
            jsonrpc: self.jsonrpc@,
            result: opt_view(self.result),
            error: match self.error {
                Some(e) => Some(e@),
                None => None,
            },
            id: self.id,
        }
    }
}

impl View for JsonRpcNotification {
    type V = NotificationView;

    open spec fn view(&self) -> NotificationView {
        NotificationView { jsonrpc: self.jsonrpc@, method: self.method@, params: self.params@ }
    }
}

/// The protocol version every message carries.
pub open spec fn version() -> Seq<char> {
    "2.0"@
}

/// The request with the given method, parameters and id.
pub open spec fn request_spec(method: Seq<char>, params: JsonView, id: u64) -> RequestView {
    RequestView { jsonrpc: version(), method, params, id }
}

/// A request as a JSON object: members `jsonrpc`, `method`, `params`, `id`.
pub open spec fn request_json(r: RequestView) -> JsonView {
    obj(
        seq![
            ("jsonrpc"@, jstr(r.jsonrpc)),
            ("method"@, jstr(r.method)),
            ("params"@, r.params),
            ("id"@, juint(r.id)),
        ],
    )
}

/// A notification as a JSON object: members `jsonrpc`, `method`, `params`.
pub open spec fn notification_json(n: NotificationView) -> JsonView {
    obj(seq![("jsonrpc"@, jstr(n.jsonrpc)), ("method"@, jstr(n.method)), ("params"@, n.params)])
}

/// Reading an error member: an object with an integer `code`, a string
/// `message` and an optional `data`.
pub open spec fn error_decode(v: JsonView) -> Option<ErrorView> {
    if v.is_object() && v.i64_at("code"@) is Some && v.str_at("message"@) is Some {
        Some(
            ErrorView {
                code: v.i64_at("code"@)->0,
                message: v.str_at("message"@)->0,
                data: v.field_opt("data"@),
            },
        )
    } else {
        None
    }
}

/// Reading a response: an object with a string `jsonrpc`, a non-negative
/// integer `id`, an optional `result` and an optional `error` that, when
/// present and not `null`, reads as an error member.
pub open spec fn response_decode(v: JsonView) -> Option<ResponseView> {
    if v.is_object() && v.str_at("jsonrpc"@) is Some && v.u64_at("id"@) is Some && (match v.field_opt(
        "error"@,
    ) {
        Some(e) => error_decode(e) is Some,
        None => true,
    }) {
        Some(
            ResponseView {
                jsonrpc: v.str_at("jsonrpc"@)->0,
                result: v.field_opt("result"@),
                error: match v.field_opt("error"@) {
                    Some(e) => error_decode(e),
                    None => None,
                },
                id: v.u64_at("id"@)->0,
            },
        )
    } else {
        None
    }
}

/// Reading a notification: an object with string `jsonrpc` and `method`
/// members and a `params` member of any type.
pub open spec fn notification_decode(v: JsonView) -> Option<NotificationView> {
    if v.is_object() && v.str_at("jsonrpc"@) is Some && v.str_at("method"@) is Some && v.get(
        "params"@,
    ) is Some {
        Some(
            NotificationView {
                jsonrpc: v.str_at("jsonrpc"@)->0,
                method: v.str_at("method"@)->0,
                params: v.get("params"@)->0,
            },
        )
    } else {
        None
    }
}

fn version_string() -> (r: String)
    ensures
        r@ == version(),
{
    String::from_str("2.0")
}

impl JsonRpcRequest {
    /// A version 2.0 request.
    pub fn new(method: &str, params: JsonValue, id: u64) -> (r: JsonRpcRequest)
        ensures
            r@ == request_spec(method@, params@, id),
    {
        JsonRpcRequest { jsonrpc: version_string(), method: String::from_str(method), params, id }
    }

    /// This request as a JSON object, members in declaration order.
    pub fn to_json(&self) -> (r: JsonValue)
        ensures
            r@ == request_json(self@),
    {
        let mut fields: Vec<(String, JsonValue)> = Vec::new();
        assert(fields_view(fields@) =~= Seq::empty());
        push_field(&mut fields, "jsonrpc", json_string(self.jsonrpc.clone()));
        push_field(&mut fields, "method", json_string(self.method.clone()));
        push_field(&mut fields, "params", self.params.clone_value());
        push_field(&mut fields, "id", json_uint(self.id));
        assert(fields_view(fields@) =~= seq![
            ("jsonrpc"@, jstr(self.jsonrpc@)),
            ("method"@, jstr(self.method@)),
            ("params"@, self.params@),
            ("id"@, juint(self.id)),
        ]);
        let r = make_object(fields);
        r
    }
}

impl JsonRpcError {
    /// Reads an error member.
    pub fn from_json(v: &JsonValue) -> (r: Option<JsonRpcError>)
        ensures
            match r {
                Some(e) => error_decode(v@) == Some(e@),
                None => error_decode(v@) is None,
            },
    {
        if !v.is_object() {
            return None;
        }
        let code = match v.i64_at("code") {
            Some(c) => c,
            None => return None,
        };
        let message = match v.str_at("message") {
            Some(m) => m,
            None => return None,
        };
        Some(JsonRpcError { code, message, data: v.field_opt("data") })
    }
}

impl JsonRpcResponse {
    /// Reads a response; `None` when `v` does not have a response's shape.
    pub fn from_json(v: &JsonValue) -> (r: Option<JsonRpcResponse>)
        ensures
            match r {
                Some(x) => response_decode(v@) == Some(x@),
                None => response_decode(v@) is None,
            },
    {
        if !v.is_object() {
            return None;
        }
        let jsonrpc = match v.str_at("jsonrpc") {
            Some(s) => s,
            None => return None,
        };
        let id = match v.u64_at("id") {
            Some(i) => i,
            None => return None,
        };
        let error = match v.field_opt("error") {
            Some(e) => match JsonRpcError::from_json(&e) {
                Some(x) => Some(x),
                None => return None,
            },
            None => None,
        };
        Some(JsonRpcResponse { jsonrpc, result: v.field_opt("result"), error, id })
    }
}

impl JsonRpcNotification {
    /// A version 2.0 notification.
    pub fn new(method: &str, params: JsonValue) -> (r: JsonRpcNotification)
        ensures
            r@ == (NotificationView { jsonrpc: version(), method: method@, params: params@ }),
    {
        JsonRpcNotification { jsonrpc: version_string(), method: String::from_str(method), params }
    }

    /// Reads a notification; `None` when `v` does not have a notification's shape.
    pub fn from_json(v: &JsonValue) -> (r: Option<JsonRpcNotification>)
        ensures
            match r {
                Some(x) => notification_decode(v@) == Some(x@),
                None => notification_decode(v@) is None,
            },
    {
        if !v.is_object() {
            return None;
        }
        let jsonrpc = match v.str_at("jsonrpc") {
            Some(s) => s,
            None => return None,
        };
        let method = match v.str_at("method") {
            Some(s) => s,
            None => return None,
        };
        let params = match v.get("params") {
            Some(p) => p.clone_value(),
            None => return None,
        };
        Some(JsonRpcNotification { jsonrpc, method, params })
    }

    /// This notification as a JSON object, members in declaration order.
    pub fn to_json(&self) -> (r: JsonValue)
        ensures
            r@ == notification_json(self@),
    {
        let mut fields: Vec<(String, JsonValue)> = Vec::new();
        assert(fields_view(fields@) =~= Seq::empty());
        push_field(&mut fields, "jsonrpc", json_string(self.jsonrpc.clone()));
        push_field(&mut fields, "method", json_string(self.method.clone()));
        push_field(&mut fields, "params", self.params.clone_value());
        assert(fields_view(fields@) =~= seq![
            ("jsonrpc"@, jstr(self.jsonrpc@)),
            ("method"@, jstr(self.method@)),
            ("params"@, self.params@),
        ]);
        let r = make_object(fields);
        r
    }
}

// ---------------------------------------------------------------------------
// Laws
// ---------------------------------------------------------------------------

/// A message as written to the agent: its JSON text and a line feed.
pub open spec fn message_line(v: JsonView) -> Seq<char> {
    json_text(v) + "\n"@
}

/// `line` is one line: it ends in its only line feed.
pub open spec fn is_one_line(line: Seq<char>) -> bool {
    &&& line.len() >= 1
    &&& line.last() == '\n'
    &&& !line.drop_last().contains('\n')
}

impl JsonRpcRequest {
    /// The line that sends this request: its JSON and a line feed.
    pub fn to_line(&self) -> (r: String)
        ensures
            r@ == message_line(request_json(self@)),
            is_one_line(r@),
    {
        let v = self.to_json();
        json_line(&v)
    }
}

impl JsonRpcNotification {
    /// The line that sends this notification: its JSON and a line feed.
    pub fn to_line(&self) -> (r: String)
        ensures
            r@ == message_line(notification_json(self@)),
            is_one_line(r@),
    {
        let v = self.to_json();
        json_line(&v)
    }
}

/// The notification that asks the agent to shut down: method `shutdown`,
/// empty parameters.
pub fn shutdown_notification() -> (r: JsonRpcNotification)
    ensures
        r@ == (NotificationView { jsonrpc: version(), method: "shutdown"@, params: JsonView::Object(Seq::empty()) }),
{
    let params = make_object(Vec::new());
    assert(fields_view(Seq::<(String, JsonValue)>::empty()) =~= Seq::empty());
    JsonRpcNotification::new("shutdown", params)
}

/// Framing: on a stream that starts with a message line, the first line
/// feed ends that line and everything before it is the message's JSON text;
/// a reader that splits at line feeds gets each message back whole.
pub proof fn law_line_framing(v: JsonView, rest: Seq<char>)
    requires
        is_one_line(message_line(v)),
    ensures
        ({
            let stream = message_line(v) + rest;
            let n = json_text(v).len() as int;
            &&& stream[n] == '\n'
            &&& forall|i: int| 0 <= i < n ==> stream[i] != '\n'
            &&& stream.take(n) == json_text(v)
        }),
{
    let line = message_line(v);
    let n = json_text(v).len() as int;
    reveal_strlit("\n");
    assert(line.drop_last() =~= json_text(v));
    assert forall|i: int| 0 <= i < n implies (line + rest)[i] != '\n' by {
        assert((line + rest)[i] == line.drop_last()[i]);
    }
    assert((line + rest).take(n) =~= json_text(v));
}

/// Reading back a written notification gives the notification.
pub proof fn law_notification_roundtrip(n: NotificationView)
    ensures
        notification_decode(notification_json(n)) == Some(n),
{
    reveal_with_fuel(crate::json::assoc_get, 4);
    let v = notification_json(n);
    assert(v.get("jsonrpc"@) == Some(jstr(n.jsonrpc)));
    assert("method"@ != "jsonrpc"@) by {
        reveal_strlit("method");
        reveal_strlit("jsonrpc");
        assert("method"@[0] != "jsonrpc"@[0]);
    }
    assert("params"@ != "jsonrpc"@ && "params"@ != "method"@) by {
        reveal_strlit("params");
        reveal_strlit("method");
        reveal_strlit("jsonrpc");
        assert("params"@[0] != "jsonrpc"@[0]);
        assert("params"@[1] != "method"@[1]);
    }
}

/// A written request carries its version, method, parameters and id.
pub proof fn law_request_members(r: RequestView)
    ensures
        request_json(r).str_at("jsonrpc"@) == Some(r.jsonrpc),
        request_json(r).str_at("method"@) == Some(r.method),
        request_json(r).get("params"@) == Some(r.params),
        request_json(r).u64_at("id"@) == Some(r.id),
{
    reveal_with_fuel(crate::json::assoc_get, 5);
    reveal_strlit("jsonrpc");
    reveal_strlit("method");
    reveal_strlit("params");
    reveal_strlit("id");
    assert("method"@[0] != "jsonrpc"@[0]);
    assert("params"@[0] != "jsonrpc"@[0]);
    assert("params"@[1] != "method"@[1]);
    assert("id"@[0] != "jsonrpc"@[0]);
    assert("id"@[0] != "method"@[0]);
    assert("id"@[0] != "params"@[0]);
}

/// A prepared request carries protocol version "2.0".
pub proof fn law_request_version(method: Seq<char>, params: JsonView, id: u64)
    ensures
        request_spec(method, params, id).jsonrpc == "2.0"@,
        request_spec(method, params, id).id == id,
{
}

} // verus!
