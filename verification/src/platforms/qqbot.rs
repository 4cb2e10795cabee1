//! The QQ Bot platform: authentication, the gateway WebSocket protocol and
//! outbound messages.
//!
//! HTTP requests, the WebSocket connection and the timers are the caller's;
//! this adapter holds the credentials and connection state and decides what
//! each reply and frame means.

use vstd::prelude::*;
use vstd::string::*;
use crate::json::{JsonValue, JsonView, NumberView, json_parse, json_text, render_json, parse_json_text, push_field, make_object,
    fields_view, json_string, json_uint, json_int, json_str, jstr, juint, jint};
use crate::router::{Attachment, InboundMessage, OutboundMessage};
use crate::text::{join_str, str_eq};
use crate::agent_bridge::types::opt_str_view;

verus! {

/// Credentials and endpoint of the bot.
#[derive(Debug)]
pub struct QQBotConfig {
    pub app_id: String,
    pub client_secret: String,
    pub api_base: Option<String>,
    pub sandbox: Option<bool>,
}

/// A failure of the QQ Bot adapter.
#[derive(Debug)]
pub enum QQBotError {
    HttpError(String),
    WebSocketError(String),
    AuthError(String),
    ParseError(String),
    SendError(String),
    InternalError(String),
}

/// The text of a failure.
pub open spec fn qq_error_msg(e: QQBotError) -> Seq<char> {
    match e {
        QQBotError::HttpError(m) => "HTTP error: "@ + m@,
        QQBotError::WebSocketError(m) => "WebSocket error: "@ + m@,
        QQBotError::AuthError(m) => "Authentication error: "@ + m@,
        QQBotError::ParseError(m) => "Parse error: "@ + m@,
        QQBotError::SendError(m) => "Send error: "@ + m@,
        QQBotError::InternalError(m) => "Internal error: "@ + m@,
    }
}

impl QQBotError {
    /// The text of this failure.
    pub fn message(&self) -> (r: String)
        ensures
            r@ == qq_error_msg(*self),
    {
        match self {
            QQBotError::HttpError(m) => join_str("HTTP error: ", m.as_str()),
            QQBotError::WebSocketError(m) => join_str("WebSocket error: ", m.as_str()),
            QQBotError::AuthError(m) => join_str("Authentication error: ", m.as_str()),
            QQBotError::ParseError(m) => join_str("Parse error: ", m.as_str()),
            QQBotError::SendError(m) => join_str("Send error: ", m.as_str()),
            QQBotError::InternalError(m) => join_str("Internal error: ", m.as_str()),
        }
    }
}

/// State of the gateway connection: the session the gateway assigned and the
/// last sequence number seen.
#[derive(Debug)]
pub struct WsState {
    pub session_id: Option<String>,
    pub last_seq: Option<i64>,
}

/// How an HTTP request went, as the caller observed it.
#[derive(Debug)]
pub enum HttpReply {
    /// The request did not complete; the transport's message.
    Failed(String),
    /// A response: whether its status is a success, the status as text, and the body.
    Received { success: bool, status: String, body: String },
}

/// An HTTP request to make: where, and the `Authorization` header.
#[derive(Debug)]
pub struct HttpCall {
    pub url: String,
    pub authorization: String,
}

/// A message send to make: where, the `Authorization` header and the JSON body.
#[derive(Debug)]
pub struct SendCall {
    pub url: String,
    pub authorization: String,
    pub body: JsonValue,
}

/// What a gateway payload calls for.
#[derive(Debug)]
pub enum WsOutcome {
    /// HELLO: send `identify`, then send heartbeats based on `interval_ms`.
    Hello { interval_ms: u64, identify: JsonValue },
    /// A user's message, to be routed.
    Inbound(InboundMessage),
    /// Nothing to do.
    Nothing,
}

/// An event of the gateway connection.
#[derive(Debug)]
pub enum WsEvent {
    Text(String),
    Ping(Vec<u8>),
    Close,
    Failed(String),
    Ended,
    Other,
    HeartbeatTick,
}

/// What the connection loop does next.
#[derive(Debug)]
pub enum LoopStep {
    /// Send the text frame `identify`, then start heartbeats based on `interval_ms`.
    StartHeartbeat { interval_ms: u64, identify: String },
    /// Route a user's message.
    Forward(InboundMessage),
    /// Answer a ping with this payload.
    Pong(Vec<u8>),
    /// Send this heartbeat text frame.
    SendHeartbeat(String),
    /// A payload could not be handled; report it and go on.
    Report(QQBotError),
    /// Go on.
    Continue,
    /// Close the connection.
    Stop,
}

/// The QQ Bot adapter's state.
pub struct QQBotAdapter {
    config: QQBotConfig,
    access_token: Option<String>,
    ws_state: WsState,
}

/// The view of an optional string.
pub open spec fn sv(s: Option<String>) -> Option<Seq<char>> {
    opt_str_view(s)
}

/// The base URL for authentication.
pub open spec fn auth_base(c: QQBotConfig) -> Seq<char> {
    match c.api_base {
        Some(b) => b@,
        None => "https://bots.qq.com"@,
    }
}

/// The base URL of the bot API.
pub open spec fn api_base(c: QQBotConfig) -> Seq<char> {
    match c.api_base {
        Some(b) => b@,
        None => "https://api.sgroup.qq.com"@,
    }
}

/// The intents the bot identifies with: C2C messages (1<<25), guild
/// @mentions (1<<30), direct messages (1<<12) and guild messages (1<<9).
pub open spec fn intents() -> u64 {
    1107300864u64
}

/// The identify payload for `token`.
pub open spec fn identify_json(token: Seq<char>) -> JsonView {
    JsonView::Object(
        seq![
            ("op"@, juint(2)),
            ("d"@, JsonView::Object(
                seq![
                    ("token"@, jstr("QQBot "@ + token)),
                    ("intents"@, juint(intents())),
                    ("shard"@, JsonView::Array(seq![juint(0), juint(1)])),
                    ("properties"@, JsonView::Object(
                        seq![
                            ("$os"@, jstr("linux"@)),
                            ("$browser"@, jstr("hermes-hybrid"@)),
                            ("$device"@, jstr("hermes-hybrid"@)),
                        ],
                    )),
                ],
            )),
        ],
    )
}

/// The heartbeat payload carrying the last sequence number (`null` when none).
pub open spec fn heartbeat_json(last_seq: Option<i64>) -> JsonView {
    JsonView::Object(
        seq![
            ("op"@, juint(1)),
            ("d"@, match last_seq {
                Some(s) => jint(s),
                None => JsonView::Null,
            }),
        ],
    )
}

/// The attachments of a message event: each item with a string `url`, with
/// its `content_type` (else "application/octet-stream") and `filename`.
pub open spec fn event_attachments(items: Seq<JsonView>) -> Seq<(Seq<char>, Seq<char>, Option<Seq<char>>)>
    decreases items.len(),
{
    if items.len() == 0 {
        Seq::empty()
    } else {
        let rest = event_attachments(items.drop_last());
        let a = items.last();
        match a.str_at("url"@) {
            Some(url) => rest.push(
                (
                    url,
                    match a.str_at("content_type"@) {
                        Some(t) => t,
                        None => "application/octet-stream"@,
                    },
                    a.str_at("filename"@),
                ),
            ),
            None => rest,
        }
    }
}

/// `m` is the attachment `a` describes.
pub open spec fn attachment_is(m: Attachment, a: (Seq<char>, Seq<char>, Option<Seq<char>>)) -> bool {
    m.url@ == a.0 && m.mime_type@ == a.1 && sv(m.filename) == a.2
}

/// Reading a message event from the dispatch's `d` member: the chat is the
/// author's id or else the guild id, the user the author's id, the text the
/// `content` (empty when absent), the attachments those items of
/// `attachments` that have a `url`, and the reply target
/// `message_reference.message_id`.
pub open spec fn message_event_ok(e: JsonView, r: Result<InboundMessage, QQBotError>) -> bool {
    let author = e.index("author"@).str_at("id"@);
    let chat = match author {
        Some(a) => Some(a),
        None => e.str_at("guild_id"@),
    };
    if chat is None {
        r matches Err(QQBotError::ParseError(m)) && m@ == "No chat_id"@
    } else if author is None {
        r matches Err(QQBotError::ParseError(m)) && m@ == "No user_id"@
    } else {
        let atts = match e.index("attachments"@).as_array() {
            Some(items) => event_attachments(items),
            None => Seq::empty(),
        };
        r matches Ok(msg) && {
            &&& msg.platform@ == "qqbot"@
            &&& msg.chat_id@ == chat->0
            &&& msg.user_id@ == author->0
            &&& msg.text@ == (match e.str_at("content"@) {
                Some(t) => t,
                None => Seq::empty(),
            })
            &&& msg.attachments@.len() == atts.len()
            &&& forall|i: int| 0 <= i < atts.len() ==> attachment_is(#[trigger] msg.attachments@[i], atts[i])
            &&& sv(msg.reply_to_message_id) == e.index("message_reference"@).str_at("message_id"@)
        }
    }
}

/// An event type that carries a user's message.
pub open spec fn is_message_event(t: Seq<char>) -> bool {
    t == "MESSAGE_CREATE"@ || t == "C2C_MESSAGE_CREATE"@ || t == "GROUP_AT_MESSAGE_CREATE"@
}

impl QQBotAdapter {
    pub closed spec fn spec_config(self) -> QQBotConfig {
        self.config
    }

    /// The access token, once authenticated.
    pub closed spec fn token(self) -> Option<Seq<char>> {
        sv(self.access_token)
    }

    /// The gateway session id, once READY.
    pub closed spec fn ws_session_id(self) -> Option<Seq<char>> {
        sv(self.ws_state.session_id)
    }

    /// The last sequence number seen.
    pub closed spec fn last_seq(self) -> Option<i64> {
        self.ws_state.last_seq
    }

    /// What a gateway payload does, given the outcome of parsing it.
    ///
    /// A sequence number `s` is remembered. HELLO (op 10) asks to identify
    /// and start heartbeats at its `heartbeat_interval` (30000 ms when
    /// absent), which needs the access token. A dispatch (op 0) of type READY
    /// records the gateway session id; one of a message type yields the
    /// message. op 7 and op 9 ask to reconnect. Anything else does nothing.
    pub open spec fn ws_effect(
        pre: QQBotAdapter,
        post: QQBotAdapter,
        parsed: Result<JsonView, Seq<char>>,
        r: Result<WsOutcome, QQBotError>,
    ) -> bool {
        &&& post.spec_config() == pre.spec_config()
        &&& post.token() == pre.token()
        &&& match parsed {
            Err(e) => {
                &&& r matches Err(QQBotError::ParseError(m)) && m@ == e
                &&& post.last_seq() == pre.last_seq()
                &&& post.ws_session_id() == pre.ws_session_id()
            },
            Ok(data) => {
                &&& post.last_seq() == (match data.i64_at("s"@) {
                    Some(s) => Some(s),
                    None => pre.last_seq(),
                })
                &&& {
                    let op = data.u64_at("op"@);
                    let d = data.index("d"@);
                    if op == Some(10u64) {
                        &&& post.ws_session_id() == pre.ws_session_id()
                        &&& match pre.token() {
                            None => r matches Err(QQBotError::AuthError(m)) && m@ == "No access token"@,
                            Some(tok) => r matches Ok(WsOutcome::Hello { interval_ms, identify })
                                && interval_ms == (match d.u64_at("heartbeat_interval"@) {
                                Some(i) => i,
                                None => 30000u64,
                            }) && identify@ == identify_json(tok),
                        }
                    } else if op == Some(0u64) {
                        let t = match data.str_at("t"@) {
                            Some(t) => t,
                            None => "UNKNOWN"@,
                        };
                        if t == "READY"@ {
                            &&& r matches Ok(WsOutcome::Nothing)
                            &&& post.ws_session_id() == (match d.str_at("session_id"@) {
                                Some(s) => Some(s),
                                None => pre.ws_session_id(),
                            })
                        } else if is_message_event(t) {
                            &&& post.ws_session_id() == pre.ws_session_id()
                            &&& match r {
                                Ok(WsOutcome::Inbound(msg)) => message_event_ok(d, Ok(msg)),
                                Err(e) => message_event_ok(d, Err(e)),
                                _ => false,
                            }
                        } else {
                            r matches Ok(WsOutcome::Nothing) && post.ws_session_id() == pre.ws_session_id()
                        }
                    } else if op == Some(7u64) || op == Some(9u64) {
                        &&& r matches Err(QQBotError::WebSocketError(m)) && m@ == "Reconnect requested"@
                        &&& post.ws_session_id() == pre.ws_session_id()
                    } else {
                        r matches Ok(WsOutcome::Nothing) && post.ws_session_id() == pre.ws_session_id()
                    }
                }
            },
        }
    }

    /// A fresh adapter: not authenticated, no gateway session, no sequence number.
    pub fn new(config: QQBotConfig) -> (r: QQBotAdapter)
        ensures
            r.spec_config() == config,
            r.token() is None,
            r.ws_session_id() is None,
            r.last_seq() is None,
    {
        QQBotAdapter { config, access_token: None, ws_state: WsState { session_id: None, last_seq: None } }
    }

    /// The configuration.
    pub fn config(&self) -> (r: &QQBotConfig)
        ensures
            *r == self.spec_config(),
    {
        &self.config
    }

    /// The last sequence number seen.
    pub fn last_sequence(&self) -> (r: Option<i64>)
        ensures
            r == self.last_seq(),
    {
        self.ws_state.last_seq
    }

    /// The gateway session id, once READY.
    pub fn gateway_session_id(&self) -> (r: Option<String>)
        ensures
            sv(r) == self.ws_session_id(),
    {
        match &self.ws_state.session_id {
            Some(s) => Some(s.clone()),
            None => None,
        }
    }

    /// The access token, once authenticated.
    pub fn access_token(&self) -> (r: Option<String>)
        ensures
            sv(r) == self.token(),
    {
        match &self.access_token {
            Some(s) => Some(s.clone()),
            None => None,
        }
    }
}

/// Reads a message event from the `d` member of a dispatch (see [`message_event_ok`]).
pub fn message_event(e: &JsonValue) -> (r: Result<InboundMessage, QQBotError>)
    ensures
        message_event_ok(e@, r),
{
    let author_value = e.index_clone("author");
    let author = author_value.str_at("id");
    let chat = match &author {
        Some(a) => Some(a.clone()),
        None => e.str_at("guild_id"),
    };
    let chat_id = match chat {
        Some(c) => c,
        None => return Err(QQBotError::ParseError(String::from_str("No chat_id"))),
    };
    let user_id = match author {
        Some(a) => a,
        None => return Err(QQBotError::ParseError(String::from_str("No user_id"))),
    };
    let text = match e.str_at("content") {
        Some(t) => t,
        None => String::new(),
    };
    let attachments_value = e.index_clone("attachments");
    let mut attachments: Vec<Attachment> = Vec::new();
    let ghost atts = match e@.index("attachments"@).as_array() {
        Some(items) => event_attachments(items),
        None => Seq::empty(),
    };
    match attachments_value.as_array() {
        Some(items) => {
            let ghost vitems = Seq::new(items@.len(), |i: int| items@[i]@);
            let mut i: usize = 0;
            while i < items.len()
                invariant
                    i <= items@.len(),
                    vitems.len() == items@.len(),
                    forall|j: int| 0 <= j < items@.len() ==> #[trigger] vitems[j] == items@[j]@,
                    attachments@.len() == event_attachments(vitems.take(i as int)).len(),
                    forall|j: int|
                        0 <= j < attachments@.len() ==> attachment_is(
                            #[trigger] attachments@[j],
                            event_attachments(vitems.take(i as int))[j],
                        ),
                decreases items@.len() - i,
            {
                let ghost prev = vitems.take(i as int);
                assert(vitems.take(i + 1).drop_last() =~= prev);
                assert(vitems.take(i + 1).last() == items@[i as int]@);
                let item = &items[i];
                match item.str_at("url") {
                    Some(url) => {
                        let mime_type = match item.str_at("content_type") {
                            Some(t) => t,
                            None => String::from_str("application/octet-stream"),
                        };
                        let filename = item.str_at("filename");
                        attachments.push(Attachment { url, mime_type, filename });
                    },
                    None => {},
                }
                i = i + 1;
            }
            assert(vitems.take(items@.len() as int) =~= vitems);
            assert(atts == event_attachments(vitems));
        },
        None => {
            assert(atts == Seq::<(Seq<char>, Seq<char>, Option<Seq<char>>)>::empty());
        },
    }
    let reply_to = e.index_clone("message_reference").str_at("message_id");
    Ok(
        InboundMessage {
            platform: String::from_str("qqbot"),
            chat_id,
            user_id,
            text,
            attachments,
            reply_to_message_id: reply_to,
        },
    )
}

impl QQBotAdapter {
    /// The identify payload; it needs the access token.
    pub fn identify_payload(&self) -> (r: Result<JsonValue, QQBotError>)
        ensures
            match self.token() {
                Some(tok) => r matches Ok(v) && v@ == identify_json(tok),
                None => r matches Err(QQBotError::AuthError(m)) && m@ == "No access token"@,
            },
    {
        let token = match &self.access_token {
            Some(t) => t,
            None => return Err(QQBotError::AuthError(String::from_str("No access token"))),
        };
        let mut props: Vec<(String, JsonValue)> = Vec::new();
        assert(fields_view(props@) =~= Seq::empty());
        push_field(&mut props, "$os", json_str("linux"));
        push_field(&mut props, "$browser", json_str("hermes-hybrid"));
        push_field(&mut props, "$device", json_str("hermes-hybrid"));
        assert(fields_view(props@) =~= seq![
            ("$os"@, jstr("linux"@)),
            ("$browser"@, jstr("hermes-hybrid"@)),
            ("$device"@, jstr("hermes-hybrid"@)),
        ]);
        let properties = make_object(props);
        let mut shard: Vec<JsonValue> = Vec::new();
        shard.push(json_uint(0));
        shard.push(json_uint(1));
        let shard_value = JsonValue::Array(shard);
        assert(shard_value@ =~= JsonView::Array(seq![juint(0), juint(1)])) by {
            if let JsonView::Array(a) = shard_value@ {
                assert(a =~= seq![juint(0), juint(1)]);
            }
        }
        let mut d: Vec<(String, JsonValue)> = Vec::new();
        assert(fields_view(d@) =~= Seq::empty());
        push_field(&mut d, "token", json_string(join_str("QQBot ", token.as_str())));
        push_field(&mut d, "intents", json_uint(1107300864u64));
        push_field(&mut d, "shard", shard_value);
        push_field(&mut d, "properties", properties);
        let ghost tok = token@;
        assert(fields_view(d@) =~= seq![
            ("token"@, jstr("QQBot "@ + tok)),
            ("intents"@, juint(intents())),
            ("shard"@, JsonView::Array(seq![juint(0), juint(1)])),
            ("properties"@, JsonView::Object(
                seq![
                    ("$os"@, jstr("linux"@)),
                    ("$browser"@, jstr("hermes-hybrid"@)),
                    ("$device"@, jstr("hermes-hybrid"@)),
                ],
            )),
        ]);
        let d_value = make_object(d);
        let mut top: Vec<(String, JsonValue)> = Vec::new();
        assert(fields_view(top@) =~= Seq::empty());
        push_field(&mut top, "op", json_uint(2));
        push_field(&mut top, "d", d_value);
        assert(fields_view(top@) =~= seq![("op"@, juint(2)), ("d"@, d_value@)]);
        Ok(make_object(top))
    }

    /// The heartbeat payload: op 1 with the last sequence number.
    pub fn heartbeat_payload(&self) -> (r: JsonValue)
        ensures
            r@ == heartbeat_json(self.last_seq()),
    {
        let d = match self.ws_state.last_seq {
            Some(s) => json_int(s),
            None => JsonValue::Null,
        };
        let mut top: Vec<(String, JsonValue)> = Vec::new();
        assert(fields_view(top@) =~= Seq::empty());
        push_field(&mut top, "op", json_uint(1));
        push_field(&mut top, "d", d);
        let ghost dv = match self.last_seq() {
            Some(s) => jint(s),
            None => JsonView::Null,
        };
        let ghost exp = seq![("op"@, juint(1)), ("d"@, dv)];
        assert(fields_view(top@) =~= exp);
        assert(heartbeat_json(self.last_seq()) =~= JsonView::Object(exp)) by {
            if let JsonView::Object(a) = heartbeat_json(self.last_seq()) {
                assert(a =~= exp);
            }
        }
        let r = make_object(top);
        assert(r@ =~= heartbeat_json(self.last_seq()));
        r
    }

    /// Handles a gateway payload whose JSON parse gave `parsed`.
    pub fn handle_websocket_value(&mut self, parsed: Result<JsonValue, String>) -> (r: Result<WsOutcome, QQBotError>)
        ensures
            Self::ws_effect(
                *old(self),
                *final(self),
                match parsed {
                    Ok(v) => Ok(v@),
                    Err(e) => Err(e@),
                },
                r,
            ),
    {
        let data = match parsed {
            Ok(v) => v,
            Err(e) => return Err(QQBotError::ParseError(e)),
        };
        match data.i64_at("s") {
            Some(s) => {
                self.ws_state.last_seq = Some(s);
            },
            None => {},
        }
        let op = data.u64_at("op");
        let d = data.index_clone("d");
        match op {
            Some(10) => {
                let interval_ms = match d.u64_at("heartbeat_interval") {
                    Some(i) => i,
                    None => 30000,
                };
                match self.identify_payload() {
                    Ok(identify) => Ok(WsOutcome::Hello { interval_ms, identify }),
                    Err(e) => Err(e),
                }
            },
            Some(0) => {
                let t = match data.str_at("t") {
                    Some(t) => t,
                    None => String::from_str("UNKNOWN"),
                };
                if str_eq(t.as_str(), "READY") {
                    match d.str_at("session_id") {
                        Some(sid) => {
                            self.ws_state.session_id = Some(sid);
                        },
                        None => {},
                    }
                    Ok(WsOutcome::Nothing)
                } else if str_eq(t.as_str(), "MESSAGE_CREATE") || str_eq(t.as_str(), "C2C_MESSAGE_CREATE")
                    || str_eq(t.as_str(), "GROUP_AT_MESSAGE_CREATE") {
                    match message_event(&d) {
                        Ok(msg) => Ok(WsOutcome::Inbound(msg)),
                        Err(e) => Err(e),
                    }
                } else {
                    Ok(WsOutcome::Nothing)
                }
            },
            Some(11) => Ok(WsOutcome::Nothing),
            Some(7) | Some(9) => Err(QQBotError::WebSocketError(String::from_str("Reconnect requested"))),
            _ => Ok(WsOutcome::Nothing),
        }
    }

    /// Handles a text frame from the gateway: parses it as JSON, then as
    /// [`QQBotAdapter::handle_websocket_value`] says.
    pub fn handle_websocket_message(&mut self, text: &str) -> (r: Result<WsOutcome, QQBotError>)
        ensures
            Self::ws_effect(*old(self), *final(self), json_parse(text@), r),
    {
        let parsed = parse_json_text(text);
        self.handle_websocket_value(parsed)
    }
}

/// A lowercase hexadecimal digit.
pub open spec fn is_lower_hex(c: char) -> bool {
    ('0' as u32 <= c as u32 <= '9' as u32) || ('a' as u32 <= c as u32 <= 'f' as u32)
}

/// The hyphenated text of a version 4 (random) UUID: 36 characters, hyphens
/// at positions 8, 13, 18 and 23, lowercase hex digits elsewhere, the
/// version digit `4` at position 14 and the variant digit (`8`, `9`, `a` or
/// `b`) at position 19.
pub open spec fn uuid_v4_text(s: Seq<char>) -> bool {
    &&& s.len() == 36
    &&& forall|i: int|
        0 <= i < 36 ==> if i == 8 || i == 13 || i == 18 || i == 23 {
            #[trigger] s[i] == '-'
        } else {
            is_lower_hex(s[i])
        }
    &&& s[14] == '4'
    &&& (s[19] == '8' || s[19] == '9' || s[19] == 'a' || s[19] == 'b')
}

/// Calls `uuid::Uuid::new_v4()` and renders it with `to_string()`: a random
/// version 4 UUID (the uuid crate sets the version and RFC 4122 variant bits)
/// in its lowercase hyphenated form.
#[verifier::external_body]
fn new_message_id() -> (r: String)
    ensures
        uuid_v4_text(r@),
{
    uuid::Uuid::new_v4().to_string()
}

/// "<what>: <status> - <body>".
pub open spec fn status_msg(what: Seq<char>, status: Seq<char>, body: Seq<char>) -> Seq<char> {
    what + ": "@ + status + " - "@ + body
}

fn status_message(what: &str, status: &str, body: &str) -> (r: String)
    ensures
        r@ == status_msg(what@, status@, body@),
{
    let mut m = String::from_str(what);
    m.append(": ");
    m.append(status);
    m.append(" - ");
    m.append(body);
    m
}

/// The JSON body of a message send: the text as `content`, `msg_type` 0,
/// and, while streaming, the message id `msg_id`.
pub open spec fn send_body_json(text: Seq<char>, msg_id: Option<Seq<char>>) -> JsonView {
    match msg_id {
        Some(id) => JsonView::Object(seq![("content"@, jstr(text)), ("msg_type"@, juint(0)), ("msg_id"@, jstr(id))]),
        None => JsonView::Object(seq![("content"@, jstr(text)), ("msg_type"@, juint(0))]),
    }
}

/// The longest wait before reconnecting, in seconds.
pub open spec fn max_reconnect_delay() -> nat {
    300
}

/// How long to wait before reconnecting after `failures` consecutive failed
/// connections (exponential backoff): 5 s after a connection that closed
/// without failing, 10 s after one failure, twice as long after each further
/// failure, and never more than [`max_reconnect_delay`].
pub open spec fn reconnect_delay(failures: nat) -> nat
    decreases failures,
{
    if failures == 0 {
        5
    } else if failures == 1 {
        10
    } else {
        let d = 2 * reconnect_delay((failures - 1) as nat);
        if d > max_reconnect_delay() {
            max_reconnect_delay()
        } else {
            d
        }
    }
}

/// The delay in seconds before reconnecting after `consecutive_failures`
/// failed connections in a row.
pub fn reconnect_delay_secs(consecutive_failures: u32) -> (r: u64)
    ensures
        r == reconnect_delay(consecutive_failures as nat),
{
    if consecutive_failures == 0 {
        return 5;
    }
    let mut d: u64 = 10;
    let mut i: u32 = 1;
    while i < consecutive_failures && d < 300
        invariant
            1 <= i <= consecutive_failures,
            d == reconnect_delay(i as nat),
            d <= 300,
        decreases consecutive_failures - i,
    {
        d = if 2 * d > 300 {
            300
        } else {
            2 * d
        };
        i = i + 1;
    }
    proof {
        if i < consecutive_failures {
            lemma_delay_stays_at_max(i as nat, consecutive_failures as nat);
        }
    }
    d
}

/// Once the wait reaches the limit, further failures keep it there.
proof fn lemma_delay_stays_at_max(i: nat, n: nat)
    requires
        1 <= i <= n,
        reconnect_delay(i) == max_reconnect_delay(),
    ensures
        reconnect_delay(n) == max_reconnect_delay(),
    decreases n - i,
{
    if i < n {
        assert(reconnect_delay(i + 1) == max_reconnect_delay());
        lemma_delay_stays_at_max(i + 1, n);
    }
}

/// The count of consecutive failed connections after a connection attempt:
/// one more after a failure (it stays at `u32::MAX` once there), none after
/// a connection that closed without failing.
pub fn next_failure_count(failures: u32, connection_failed: bool) -> (r: u32)
    ensures
        r == (if !connection_failed {
            0
        } else if failures == u32::MAX {
            failures
        } else {
            (failures + 1) as u32
        }),
{
    if !connection_failed {
        0
    } else if failures == u32::MAX {
        failures
    } else {
        failures + 1
    }
}

/// Backoff: each further failure at least keeps the wait, doubles it while
/// the doubled wait stays within the limit, and the wait never exceeds the limit.
pub proof fn law_reconnect_backoff(n: nat)
    requires
        n >= 1,
    ensures
        reconnect_delay(n) <= reconnect_delay(n + 1) <= max_reconnect_delay(),
        2 * reconnect_delay(n) <= max_reconnect_delay() ==> reconnect_delay(n + 1) == 2 * reconnect_delay(n),
    decreases n,
{
    if n > 1 {
        law_reconnect_backoff((n - 1) as nat);
    }
    assert(reconnect_delay(n + 1) == (if 2 * reconnect_delay(n) > 300 { 300 } else { 2 * reconnect_delay(n) }));
}

/// The result of a message send: a transport failure is an HTTP error, a
/// response that is not a success fails with its status and body.
pub fn send_result(reply: HttpReply) -> (r: Result<(), QQBotError>)
    ensures
        match reply {
            HttpReply::Failed(e) => r matches Err(QQBotError::HttpError(m)) && m@ == e@,
            HttpReply::Received { success, status, body } => if success {
                r is Ok
            } else {
                r matches Err(QQBotError::SendError(m)) && m@ == status_msg(
                    "Failed to send message"@,
                    status@,
                    body@,
                )
            },
        },
{
    match reply {
        HttpReply::Failed(e) => Err(QQBotError::HttpError(e)),
        HttpReply::Received { success, status, body } => {
            if success {
                Ok(())
            } else {
                Err(QQBotError::SendError(status_message("Failed to send message", status.as_str(), body.as_str())))
            }
        },
    }
}

/// The text of the HTTP error for a reply body that is not JSON.
pub open spec fn body_decode_msg() -> Seq<char> {
    "error decoding response body"@
}

impl QQBotAdapter {
    /// Where to request the access token.
    pub fn auth_url(&self) -> (r: String)
        ensures
            r@ == auth_base(self.spec_config()) + "/app/getAppAccessToken"@,
    {
        match &self.config.api_base {
            Some(b) => join_str(b.as_str(), "/app/getAppAccessToken"),
            None => join_str("https://bots.qq.com", "/app/getAppAccessToken"),
        }
    }

    /// The body of the token request: `appId` and `clientSecret`.
    pub fn auth_body(&self) -> (r: JsonValue)
        ensures
            r@ == JsonView::Object(
                seq![
                    ("appId"@, jstr(self.spec_config().app_id@)),
                    ("clientSecret"@, jstr(self.spec_config().client_secret@)),
                ],
            ),
    {
        let mut f: Vec<(String, JsonValue)> = Vec::new();
        assert(fields_view(f@) =~= Seq::empty());
        push_field(&mut f, "appId", json_string(self.config.app_id.clone()));
        push_field(&mut f, "clientSecret", json_string(self.config.client_secret.clone()));
        let ghost exp = seq![
            ("appId"@, jstr(self.spec_config().app_id@)),
            ("clientSecret"@, jstr(self.spec_config().client_secret@)),
        ];
        assert(fields_view(f@) =~= exp);
        make_object(f)
    }

    /// Takes the reply to the token request: a transport failure is an HTTP
    /// error; a response that is not a success fails authentication with its
    /// status and body; a body that is not JSON is an HTTP error ("error
    /// decoding response body", as reqwest's `json` reports it); otherwise
    /// its `access_token` string becomes the token, and without one
    /// authentication fails.
    pub fn authenticate(&mut self, reply: HttpReply) -> (r: Result<(), QQBotError>)
        ensures
            final(self).spec_config() == old(self).spec_config(),
            final(self).ws_session_id() == old(self).ws_session_id(),
            final(self).last_seq() == old(self).last_seq(),
            match reply {
                HttpReply::Failed(e) => r matches Err(QQBotError::HttpError(m)) && m@ == e@
                    && final(self).token() == old(self).token(),
                HttpReply::Received { success, status, body } => if !success {
                    &&& r matches Err(QQBotError::AuthError(m)) && m@ == status_msg(
                        "Failed to authenticate"@,
                        status@,
                        body@,
                    )
                    &&& final(self).token() == old(self).token()
                } else {
                    match json_parse(body@) {
                        Err(_) => r matches Err(QQBotError::HttpError(m)) && m@ == body_decode_msg() && final(self).token()
                            == old(self).token(),
                        Ok(data) => match data.str_at("access_token"@) {
                            Some(t) => r is Ok && final(self).token() == Some(t),
                            None => r matches Err(QQBotError::AuthError(m)) && m@ == "No access_token in response"@
                                && final(self).token() == old(self).token(),
                        },
                    }
                },
            },
    {
        match reply {
            HttpReply::Failed(e) => Err(QQBotError::HttpError(e)),
            HttpReply::Received { success, status, body } => {
                if !success {
                    return Err(
                        QQBotError::AuthError(
                            status_message("Failed to authenticate", status.as_str(), body.as_str()),
                        ),
                    );
                }
                let data = match parse_json_text(body.as_str()) {
                    Ok(v) => v,
                    Err(_) => return Err(QQBotError::HttpError(String::from_str("error decoding response body"))),
                };
                match data.str_at("access_token") {
                    Some(t) => {
                        self.access_token = Some(t);
                        Ok(())
                    },
                    None => Err(QQBotError::AuthError(String::from_str("No access_token in response"))),
                }
            },
        }
    }

    /// The request for the gateway URL; it needs the access token.
    pub fn gateway_url_request(&self) -> (r: Result<HttpCall, QQBotError>)
        ensures
            match self.token() {
                Some(t) => r matches Ok(c) && c.url@ == api_base(self.spec_config()) + "/gateway"@
                    && c.authorization@ == "QQBot "@ + t,
                None => r matches Err(QQBotError::AuthError(m)) && m@ == "No access token"@,
            },
    {
        let url = match &self.config.api_base {
            Some(b) => join_str(b.as_str(), "/gateway"),
            None => join_str("https://api.sgroup.qq.com", "/gateway"),
        };
        match &self.access_token {
            Some(t) => Ok(HttpCall { url, authorization: join_str("QQBot ", t.as_str()) }),
            None => Err(QQBotError::AuthError(String::from_str("No access token"))),
        }
    }

    /// Takes the reply to the gateway URL request: failures and bodies that
    /// are not JSON are HTTP errors ("error decoding response body"); the
    /// `url` string member is the URL.
    pub fn gateway_url(reply: HttpReply) -> (r: Result<String, QQBotError>)
        ensures
            match reply {
                HttpReply::Failed(e) => r matches Err(QQBotError::HttpError(m)) && m@ == e@,
                HttpReply::Received { body, .. } => match json_parse(body@) {
                    Err(_) => r matches Err(QQBotError::HttpError(m)) && m@ == body_decode_msg(),
                    Ok(data) => match data.str_at("url"@) {
                        Some(u) => r matches Ok(x) && x@ == u,
                        None => r matches Err(QQBotError::WebSocketError(m)) && m@ == "No gateway URL in response"@,
                    },
                },
            },
    {
        match reply {
            HttpReply::Failed(e) => Err(QQBotError::HttpError(e)),
            HttpReply::Received { body, .. } => {
                let data = match parse_json_text(body.as_str()) {
                    Ok(v) => v,
                    Err(_) => return Err(QQBotError::HttpError(String::from_str("error decoding response body"))),
                };
                match data.str_at("url") {
                    Some(u) => Ok(u),
                    None => Err(QQBotError::WebSocketError(String::from_str("No gateway URL in response"))),
                }
            },
        }
    }

    /// The send of `msg` to its chat, with `msg_id` as the id of a streaming
    /// message; it needs the access token.
    pub fn send_message_with_id(&self, msg: &OutboundMessage, msg_id: String) -> (r: Result<SendCall, QQBotError>)
        ensures
            match self.token() {
                Some(t) => r matches Ok(c) && {
                    &&& c.url@ == api_base(self.spec_config()) + "/v2/users/"@ + msg.chat_id@ + "/messages"@
                    &&& c.authorization@ == "QQBot "@ + t
                    &&& c.body@ == send_body_json(
                        msg.text@,
                        if msg.is_streaming {
                            Some(msg_id@)
                        } else {
                            None
                        },
                    )
                },
                None => r matches Err(QQBotError::AuthError(m)) && m@ == "No access token"@,
            },
    {
        let mut url = match &self.config.api_base {
            Some(b) => String::from_str(b.as_str()),
            None => String::from_str("https://api.sgroup.qq.com"),
        };
        url.append("/v2/users/");
        url.append(msg.chat_id.as_str());
        url.append("/messages");
        let token = match &self.access_token {
            Some(t) => t,
            None => return Err(QQBotError::AuthError(String::from_str("No access token"))),
        };
        let mut f: Vec<(String, JsonValue)> = Vec::new();
        assert(fields_view(f@) =~= Seq::empty());
        push_field(&mut f, "content", json_string(msg.text.clone()));
        push_field(&mut f, "msg_type", json_uint(0));
        if msg.is_streaming {
            push_field(&mut f, "msg_id", json_string(msg_id));
            let ghost exp = seq![("content"@, jstr(msg.text@)), ("msg_type"@, juint(0)), ("msg_id"@, jstr(msg_id@))];
            assert(fields_view(f@) =~= exp);
        } else {
            let ghost exp = seq![("content"@, jstr(msg.text@)), ("msg_type"@, juint(0))];
            assert(fields_view(f@) =~= exp);
        }
        let body = make_object(f);
        Ok(SendCall { url, authorization: join_str("QQBot ", token.as_str()), body })
    }

    /// The send of `msg` to its chat; a streaming message gets a fresh
    /// random id. It needs the access token.
    pub fn send_message(&self, msg: &OutboundMessage) -> (r: Result<SendCall, QQBotError>)
        ensures
            match self.token() {
                Some(t) => r matches Ok(c) && {
                    &&& c.url@ == api_base(self.spec_config()) + "/v2/users/"@ + msg.chat_id@ + "/messages"@
                    &&& c.authorization@ == "QQBot "@ + t
                    &&& msg.is_streaming ==> exists|id: Seq<char>| uuid_v4_text(id) && c.body@ == send_body_json(msg.text@, Some(id))
                    &&& !msg.is_streaming ==> c.body@ == send_body_json(msg.text@, None)
                },
                None => r matches Err(QQBotError::AuthError(m)) && m@ == "No access token"@,
            },
    {
        let id = if msg.is_streaming {
            new_message_id()
        } else {
            String::new()
        };
        let ghost idv = id@;
        let r = self.send_message_with_id(msg, id);
        proof {
            if msg.is_streaming && self.token() is Some {
                assert(uuid_v4_text(idv));
            }
        }
        r
    }

    /// What the connection loop does on an event: a text frame is handled
    /// as a gateway payload (HELLO starts the heartbeat, a message is
    /// forwarded, a failure is reported and the loop goes on); a ping is
    /// answered; a close, an error or the end of the stream stops the loop;
    /// a heartbeat tick sends a heartbeat.
    pub fn on_ws_event(&mut self, event: WsEvent) -> (r: LoopStep)
        ensures
            match event {
                WsEvent::Text(text) => exists|o: Result<WsOutcome, QQBotError>| {
                    &&& #[trigger] Self::ws_effect(*old(self), *final(self), json_parse(text@), o)
                    &&& match o {
                        Ok(WsOutcome::Hello { interval_ms, identify }) => r matches LoopStep::StartHeartbeat {
                            interval_ms: i,
                            identify: x,
                        } && i == interval_ms && x@ == json_text(identify@),
                        Ok(WsOutcome::Inbound(m)) => r == LoopStep::Forward(m),
                        Ok(WsOutcome::Nothing) => r is Continue,
                        Err(e) => r == LoopStep::Report(e),
                    }
                },
                WsEvent::Ping(data) => r == LoopStep::Pong(data) && *final(self) == *old(self),
                WsEvent::HeartbeatTick => r matches LoopStep::SendHeartbeat(h) && h@ == json_text(
                    heartbeat_json(old(self).last_seq()),
                ) && *final(self) == *old(self),
                WsEvent::Other => r is Continue && *final(self) == *old(self),
                _ => r is Stop && *final(self) == *old(self),
            },
    {
        match event {
            WsEvent::Text(text) => {
                let o = self.handle_websocket_message(text.as_str());
                match o {
                    Ok(WsOutcome::Hello { interval_ms, identify }) => LoopStep::StartHeartbeat {
                        interval_ms,
                        identify: render_json(&identify),
                    },
                    Ok(WsOutcome::Inbound(m)) => LoopStep::Forward(m),
                    Ok(WsOutcome::Nothing) => LoopStep::Continue,
                    Err(e) => LoopStep::Report(e),
                }
            },
            WsEvent::Ping(data) => LoopStep::Pong(data),
            WsEvent::HeartbeatTick => {
                let h = self.heartbeat_payload();
                LoopStep::SendHeartbeat(render_json(&h))
            },
            WsEvent::Other => LoopStep::Continue,
            _ => LoopStep::Stop,
        }
    }
}

// ---------------------------------------------------------------------------
// Laws
// ---------------------------------------------------------------------------

/// The next heartbeat carries the sequence number of the last payload that
/// had one.
pub proof fn law_heartbeat_carries_sequence(
    pre: QQBotAdapter,
    post: QQBotAdapter,
    data: JsonView,
    r: Result<WsOutcome, QQBotError>,
    s: i64,
)
    requires
        QQBotAdapter::ws_effect(pre, post, Ok(data), r),
        data.i64_at("s"@) == Some(s),
    ensures
        heartbeat_json(post.last_seq()) == heartbeat_json(Some(s)),
{
}

/// A payload without a sequence number leaves the heartbeat as it was.
pub proof fn law_heartbeat_unchanged_without_sequence(
    pre: QQBotAdapter,
    post: QQBotAdapter,
    data: JsonView,
    r: Result<WsOutcome, QQBotError>,
)
    requires
        QQBotAdapter::ws_effect(pre, post, Ok(data), r),
        data.i64_at("s"@) is None,
    ensures
        heartbeat_json(post.last_seq()) == heartbeat_json(pre.last_seq()),
{
}

/// Handling gateway payloads never changes the credentials: the token that
/// identifies and sends is the one authentication stored.
pub proof fn law_payloads_keep_token(
    pre: QQBotAdapter,
    post: QQBotAdapter,
    parsed: Result<JsonView, Seq<char>>,
    r: Result<WsOutcome, QQBotError>,
)
    requires
        QQBotAdapter::ws_effect(pre, post, parsed, r),
    ensures
        post.token() == pre.token(),
        post.spec_config() == pre.spec_config(),
{
}

/// Each attachment read from an event's items comes from an item with a
/// string `url`: it carries that URL, the item's `content_type` (or
/// "application/octet-stream") and its `filename`; there are no more of them
/// than items.
pub proof fn law_event_attachments_from_items(items: Seq<JsonView>)
    ensures
        event_attachments(items).len() <= items.len(),
        forall|i: int|
            #![trigger event_attachments(items)[i]]
            0 <= i < event_attachments(items).len() ==> exists|j: int|
                0 <= j < items.len() && #[trigger] items[j].str_at("url"@) == Some(event_attachments(items)[i].0)
                    && event_attachments(items)[i].1 == (match items[j].str_at("content_type"@) {
                    Some(t) => t,
                    None => "application/octet-stream"@,
                }) && event_attachments(items)[i].2 == items[j].str_at("filename"@),
    decreases items.len(),
{
    if items.len() > 0 {
        let rest = items.drop_last();
        law_event_attachments_from_items(rest);
        let ea = event_attachments(items);
        let er = event_attachments(rest);
        assert forall|i: int| #![trigger ea[i]] 0 <= i < ea.len() implies exists|j: int|
            0 <= j < items.len() && #[trigger] items[j].str_at("url"@) == Some(ea[i].0) && ea[i].1 == (match items[j].str_at(
                "content_type"@,
            ) {
                Some(t) => t,
                None => "application/octet-stream"@,
            }) && ea[i].2 == items[j].str_at("filename"@) by {
            if i < er.len() {
                assert(ea[i] == er[i]);
                let j = choose|j: int|
                    0 <= j < rest.len() && #[trigger] rest[j].str_at("url"@) == Some(er[i].0) && er[i].1 == (match rest[j].str_at(
                        "content_type"@,
                    ) {
                        Some(t) => t,
                        None => "application/octet-stream"@,
                    }) && er[i].2 == rest[j].str_at("filename"@);
                assert(items[j] == rest[j]);
            } else {
                assert(items[items.len() - 1] == items.last());
            }
        }
    }
}

/// Reading a message event: whenever the author has a string id, the message
/// is read, from chat and user both that author id, on platform "qqbot", with
/// the event's `content` as text (empty when absent) and its
/// `message_reference.message_id` as reply target; without an author id it
/// is refused, as "No user_id" when a guild id is there and "No chat_id"
/// otherwise. Every attachment comes from an item of `attachments` with a
/// string `url`.
pub proof fn law_message_event_fields(e: JsonView, r: Result<InboundMessage, QQBotError>)
    requires
        message_event_ok(e, r),
    ensures
        e.index("author"@).str_at("id"@) matches Some(a) ==> (r matches Ok(m) && {
            &&& m.chat_id@ == a
            &&& m.user_id@ == a
            &&& m.platform@ == "qqbot"@
            &&& m.text@ == (match e.str_at("content"@) {
                Some(t) => t,
                None => Seq::empty(),
            })
            &&& sv(m.reply_to_message_id) == e.index("message_reference"@).str_at("message_id"@)
        }),
        e.index("author"@).str_at("id"@) is None && e.str_at("guild_id"@) is Some ==> (r matches Err(
            QQBotError::ParseError(x),
        ) && x@ == "No user_id"@),
        e.index("author"@).str_at("id"@) is None && e.str_at("guild_id"@) is None ==> (r matches Err(
            QQBotError::ParseError(x),
        ) && x@ == "No chat_id"@),
        r matches Ok(m) ==> {
            &&& (e.index("attachments"@).as_array() is None ==> m.attachments@.len() == 0)
            &&& (e.index("attachments"@) matches JsonView::Array(items) ==> {
                &&& m.attachments@.len() <= items.len()
                &&& forall|i: int|
                    #![trigger m.attachments@[i]]
                    0 <= i < m.attachments@.len() ==> exists|j: int|
                        0 <= j < items.len() && #[trigger] items[j].str_at("url"@) == Some(m.attachments@[i].url@)
                            && m.attachments@[i].mime_type@ == (match items[j].str_at("content_type"@) {
                            Some(t) => t,
                            None => "application/octet-stream"@,
                        }) && sv(m.attachments@[i].filename) == items[j].str_at("filename"@)
            })
        },
{
    if let JsonView::Array(items) = e.index("attachments"@) {
        law_event_attachments_from_items(items);
        if let Ok(m) = r {
            let ea = event_attachments(items);
            assert forall|i: int| #![trigger m.attachments@[i]] 0 <= i < m.attachments@.len() implies exists|j: int|
                0 <= j < items.len() && #[trigger] items[j].str_at("url"@) == Some(m.attachments@[i].url@)
                    && m.attachments@[i].mime_type@ == (match items[j].str_at("content_type"@) {
                    Some(t) => t,
                    None => "application/octet-stream"@,
                }) && sv(m.attachments@[i].filename) == items[j].str_at("filename"@) by {
                assert(attachment_is(m.attachments@[i], ea[i]));
            }
        }
    }
}

/// A dispatch (op 0) of type "MESSAGE_CREATE", "C2C_MESSAGE_CREATE" or
/// "GROUP_AT_MESSAGE_CREATE" yields the message read from its `d`, or the
/// reason it cannot be read; never nothing. With an author id, the message
/// is routed from that author's chat.
pub proof fn law_message_dispatch_routed(
    pre: QQBotAdapter,
    post: QQBotAdapter,
    data: JsonView,
    r: Result<WsOutcome, QQBotError>,
)
    requires
        QQBotAdapter::ws_effect(pre, post, Ok(data), r),
        data.u64_at("op"@) == Some(0u64),
        data.str_at("t"@) == Some("MESSAGE_CREATE"@) || data.str_at("t"@) == Some("C2C_MESSAGE_CREATE"@)
            || data.str_at("t"@) == Some("GROUP_AT_MESSAGE_CREATE"@),
    ensures
        r matches Ok(WsOutcome::Inbound(_)) || r matches Err(QQBotError::ParseError(_)),
        data.index("d"@).index("author"@).str_at("id"@) matches Some(a) ==> (r matches Ok(WsOutcome::Inbound(m))
            && m.chat_id@ == a && m.user_id@ == a && m.platform@ == "qqbot"@),
        post.ws_session_id() == pre.ws_session_id(),
{
    reveal_strlit("MESSAGE_CREATE");
    reveal_strlit("C2C_MESSAGE_CREATE");
    reveal_strlit("GROUP_AT_MESSAGE_CREATE");
    reveal_strlit("READY");
    assert("MESSAGE_CREATE"@.len() == 14);
    assert("C2C_MESSAGE_CREATE"@.len() == 18);
    assert("GROUP_AT_MESSAGE_CREATE"@.len() == 23);
    assert("READY"@.len() == 5);
    let t = data.str_at("t"@)->0;
    assert(t != "READY"@);
    assert(is_message_event(t));
    let d = data.index("d"@);
    match r {
        Ok(WsOutcome::Inbound(m)) => {
            law_message_event_fields(d, Ok(m));
        },
        Err(e) => {
            law_message_event_fields(d, Err(e));
        },
        _ => {},
    }
}

/// Other dispatches do nothing, except READY, which records the gateway
/// session id it carries; op 7 and op 9 ask to reconnect; a heartbeat
/// acknowledgement (op 11) does nothing.
pub proof fn law_other_payloads(pre: QQBotAdapter, post: QQBotAdapter, data: JsonView, r: Result<WsOutcome, QQBotError>)
    requires
        QQBotAdapter::ws_effect(pre, post, Ok(data), r),
    ensures
        data.u64_at("op"@) == Some(0u64) && data.str_at("t"@) == Some("READY"@) ==> {
            &&& r matches Ok(WsOutcome::Nothing)
            &&& (data.index("d"@).str_at("session_id"@) matches Some(sid) ==> post.ws_session_id() == Some(sid))
        },
        data.u64_at("op"@) == Some(0u64) && (data.str_at("t"@) matches Some(t) && t != "READY"@ && t
            != "MESSAGE_CREATE"@ && t != "C2C_MESSAGE_CREATE"@ && t != "GROUP_AT_MESSAGE_CREATE"@) ==> r matches Ok(
            WsOutcome::Nothing,
        ),
        data.u64_at("op"@) == Some(7u64) || data.u64_at("op"@) == Some(9u64) ==> (r matches Err(
            QQBotError::WebSocketError(x),
        ) && x@ == "Reconnect requested"@),
        data.u64_at("op"@) == Some(11u64) ==> r matches Ok(WsOutcome::Nothing),
        data.u64_at("op"@) == Some(10u64) && pre.token() is Some ==> (r matches Ok(WsOutcome::Hello { interval_ms, .. })
            && interval_ms == (match data.index("d"@).u64_at("heartbeat_interval"@) {
            Some(i) => i,
            None => 30000u64,
        })),
{
}

/// The gateway payloads the bot sends: identify (op 2) carries the token as
/// "QQBot <token>" and the intents for C2C messages (1<<25), guild
/// @mentions (1<<30), direct messages (1<<12) and guild messages (1<<9);
/// a heartbeat (op 1) carries the last sequence number, `null` when none.
pub proof fn law_gateway_payload_members(token: Seq<char>, last_seq: Option<i64>)
    ensures
        identify_json(token).get("op"@) == Some(JsonView::Number(NumberView::PosInt(2))),
        identify_json(token).get("d"@) matches Some(d) && {
            &&& d.get("token"@) == Some(JsonView::Str("QQBot "@ + token))
            &&& d.get("intents"@) == Some(
                JsonView::Number(NumberView::PosInt((1u64 << 25u64) | (1u64 << 30u64) | (1u64 << 12u64) | (1u64 << 9u64))),
            )
        },
        heartbeat_json(last_seq).get("op"@) == Some(JsonView::Number(NumberView::PosInt(1))),
        heartbeat_json(last_seq).get("d"@) == Some(
            match last_seq {
                Some(s) => if s >= 0 {
                    JsonView::Number(NumberView::PosInt(s as u64))
                } else {
                    JsonView::Number(NumberView::NegInt(s))
                },
                None => JsonView::Null,
            },
        ),
{
    reveal_with_fuel(crate::json::assoc_get, 5);
    reveal_strlit("op");
    reveal_strlit("d");
    reveal_strlit("token");
    reveal_strlit("intents");
    assert("op"@.len() == 2);
    assert("d"@.len() == 1);
    assert("token"@.len() == 5);
    assert("intents"@.len() == 7);
    assert((1u64 << 25u64) | (1u64 << 30u64) | (1u64 << 12u64) | (1u64 << 9u64) == 1107300864u64) by (bit_vector);
}

/// A message send carries the text as `content`, `msg_type` 0, and a
/// message id only while streaming; it goes to the chat's messages under the
/// configured API base, or "https://api.sgroup.qq.com" when none is set.
pub proof fn law_send_body_members(text: Seq<char>, msg_id: Option<Seq<char>>, c: QQBotConfig)
    ensures
        send_body_json(text, msg_id).get("content"@) == Some(JsonView::Str(text)),
        send_body_json(text, msg_id).get("msg_type"@) == Some(JsonView::Number(NumberView::PosInt(0))),
        send_body_json(text, msg_id).get("msg_id"@) == (match msg_id {
            Some(id) => Some(JsonView::Str(id)),
            None => None,
        }),
        c.api_base matches Some(b) ==> api_base(c) == b@,
        c.api_base is None ==> api_base(c) == "https://api.sgroup.qq.com"@,
        c.api_base matches Some(b) ==> auth_base(c) == b@,
        c.api_base is None ==> auth_base(c) == "https://bots.qq.com"@,
{
    reveal_with_fuel(crate::json::assoc_get, 4);
    reveal_strlit("content");
    reveal_strlit("msg_type");
    reveal_strlit("msg_id");
    assert("content"@.len() == 7);
    assert("msg_type"@.len() == 8);
    assert("msg_id"@.len() == 6);
}

} // verus!
