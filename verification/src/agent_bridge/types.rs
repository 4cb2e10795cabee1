//! Types of the agent protocol: session configuration, replies to requests,
//! and the notifications the agent sends while it works.

use vstd::prelude::*;
use vstd::string::*;
use crate::error::GatewayError;
use crate::json::{
    JsonNumber, JsonValue, JsonView, NumberView, push_field,
    make_object, fields_view, json_string, json_uint, json_bool, jstr, juint, jopt_str, jopt_uint,
    json_opt_str,
};
use crate::agent_bridge::protocol::{JsonRpcNotification, NotificationView};
use crate::decode::{FieldKind, table, names_distinct, struct_error, struct_check, member, member_ref, take_str,
    take_u32, take_u64, take_opt_u64, opt_u64_in, token_fields, token_table, tokens_error, scalar_judge, full_judge,
    lemma_struct_ok};

verus! {

// ---------------------------------------------------------------------------
// Session configuration sent with `start_session`
// ---------------------------------------------------------------------------

/// Configuration of an agent session.
#[derive(Debug)]
pub struct SessionConfig {
    pub model: Option<String>,
    pub max_turns: Option<u32>,
    pub toolsets: Vec<String>,
    pub personality: Option<String>,
    pub budget: Option<BudgetConfig>,
}

/// Spending limits of a session. The dollar limit is kept as the JSON
/// number sent to the agent.
#[derive(Debug)]
pub struct BudgetConfig {
    pub max_usd: Option<JsonNumber>,
    pub max_input_tokens: Option<u64>,
    pub max_output_tokens: Option<u64>,
}

/// The view of an optional string.
pub open spec fn opt_str_view(s: Option<String>) -> Option<Seq<char>> {
    match s {
        Some(t) => Some(t@),
        None => None,
    }
}

/// `null` or the number.
pub open spec fn jopt_u32(u: Option<u32>) -> JsonView {
    match u {
        Some(t) => juint(t as u64),
        None => JsonView::Null,
    }
}

/// An array of strings.
pub open spec fn jstr_array(items: Seq<String>) -> JsonView {
    JsonView::Array(Seq::new(items.len(), |i: int| jstr(items[i]@)))
}

impl BudgetConfig {
    /// The JSON form: `max_usd`, `max_input_tokens`, `max_output_tokens`, absent ones `null`.
    pub open spec fn json(self) -> JsonView {
        JsonView::Object(
            seq![
                ("max_usd"@, match self.max_usd {
                    Some(n) => JsonView::Number(n@),
                    None => JsonView::Null,
                }),
                ("max_input_tokens"@, jopt_uint(self.max_input_tokens)),
                ("max_output_tokens"@, jopt_uint(self.max_output_tokens)),
            ],
        )
    }

    pub fn to_json(&self) -> (r: JsonValue)
        ensures
            r@ == self.json(),
    {
        let mut fields: Vec<(String, JsonValue)> = Vec::new();
        assert(fields_view(fields@) =~= Seq::empty());
        let usd = match &self.max_usd {
            Some(n) => JsonValue::Number(n.clone_number()),
            None => JsonValue::Null,
        };
        push_field(&mut fields, "max_usd", usd);
        push_field(&mut fields, "max_input_tokens", json_opt_uint(self.max_input_tokens));
        push_field(&mut fields, "max_output_tokens", json_opt_uint(self.max_output_tokens));
        assert(fields_view(fields@) =~= seq![
            ("max_usd"@, match self.max_usd {
                Some(n) => JsonView::Number(n@),
                None => JsonView::Null,
            }),
            ("max_input_tokens"@, jopt_uint(self.max_input_tokens)),
            ("max_output_tokens"@, jopt_uint(self.max_output_tokens)),
        ]);
        make_object(fields)
    }
}

/// `null` or the number.
pub fn json_opt_uint(u: Option<u64>) -> (r: JsonValue)
    ensures
        r@ == jopt_uint(u),
{
    match u {
        Some(t) => json_uint(t),
        None => JsonValue::Null,
    }
}

/// An array holding copies of the strings.
pub fn json_str_array(items: &Vec<String>) -> (r: JsonValue)
    ensures
        r@ == jstr_array(items@),
{
    let mut out: Vec<JsonValue> = Vec::new();
    let mut i: usize = 0;
    while i < items.len()
        invariant
            i <= items@.len(),
            out@.len() == i,
            forall|j: int| 0 <= j < i ==> (#[trigger] out@[j])@ == jstr(items@[j]@),
        decreases items@.len() - i,
    {
        out.push(json_string(items[i].clone()));
        i = i + 1;
    }
    let r = JsonValue::Array(out);
    assert(r@ =~= jstr_array(items@)) by {
        if let JsonView::Array(a) = r@ {
            assert(a =~= Seq::new(items@.len(), |i: int| jstr(items@[i]@)));
        }
    }
    r
}

impl SessionConfig {
    /// The JSON form: `model`, `max_turns`, `toolsets`, `personality`, `budget`, absent ones `null`.
    pub open spec fn json(self) -> JsonView {
        JsonView::Object(
            seq![
                ("model"@, jopt_str(opt_str_view(self.model))),
                ("max_turns"@, jopt_u32(self.max_turns)),
                ("toolsets"@, jstr_array(self.toolsets@)),
                ("personality"@, jopt_str(opt_str_view(self.personality))),
                ("budget"@, match self.budget {
                    Some(b) => b.json(),
                    None => JsonView::Null,
                }),
            ],
        )
    }

    pub fn to_json(&self) -> (r: JsonValue)
        ensures
            r@ == self.json(),
    {
        let mut fields: Vec<(String, JsonValue)> = Vec::new();
        assert(fields_view(fields@) =~= Seq::empty());
        push_field(&mut fields, "model", json_opt_str(&self.model));
        let turns = match self.max_turns {
            Some(t) => json_uint(t as u64),
            None => JsonValue::Null,
        };
        push_field(&mut fields, "max_turns", turns);
        push_field(&mut fields, "toolsets", json_str_array(&self.toolsets));
        push_field(&mut fields, "personality", json_opt_str(&self.personality));
        let budget = match &self.budget {
            Some(b) => b.to_json(),
            None => JsonValue::Null,
        };
        push_field(&mut fields, "budget", budget);
        assert(fields_view(fields@) =~= seq![
            ("model"@, jopt_str(opt_str_view(self.model))),
            ("max_turns"@, jopt_u32(self.max_turns)),
            ("toolsets"@, jstr_array(self.toolsets@)),
            ("personality"@, jopt_str(opt_str_view(self.personality))),
            ("budget"@, match self.budget {
                Some(b) => b.json(),
                None => JsonView::Null,
            }),
        ]);
        make_object(fields)
    }
}

// ---------------------------------------------------------------------------
// Attachments sent with `handle_message`
// ---------------------------------------------------------------------------

/// An attachment as the agent receives it. `attachment_type` is one of
/// "image", "audio", "video", "document".
#[derive(Debug)]
pub struct MessageAttachment {
    pub attachment_type: String,
    pub url: String,
    pub caption: Option<String>,
}

impl MessageAttachment {
    /// The JSON form: `type`, `url`, `caption` (`null` when absent).
    pub open spec fn json(self) -> JsonView {
        JsonView::Object(
            seq![
                ("type"@, jstr(self.attachment_type@)),
                ("url"@, jstr(self.url@)),
                ("caption"@, jopt_str(opt_str_view(self.caption))),
            ],
        )
    }

    pub fn to_json(&self) -> (r: JsonValue)
        ensures
            r@ == self.json(),
    {
        let mut fields: Vec<(String, JsonValue)> = Vec::new();
        assert(fields_view(fields@) =~= Seq::empty());
        push_field(&mut fields, "type", json_string(self.attachment_type.clone()));
        push_field(&mut fields, "url", json_string(self.url.clone()));
        push_field(&mut fields, "caption", json_opt_str(&self.caption));
        assert(fields_view(fields@) =~= seq![
            ("type"@, jstr(self.attachment_type@)),
            ("url"@, jstr(self.url@)),
            ("caption"@, jopt_str(opt_str_view(self.caption))),
        ]);
        make_object(fields)
    }
}

/// The JSON array of the attachments, in order.
pub open spec fn attachments_json(items: Seq<MessageAttachment>) -> JsonView {
    JsonView::Array(Seq::new(items.len(), |i: int| items[i].json()))
}

/// The attachments as a JSON array.
pub fn attachments_to_json(items: &Vec<MessageAttachment>) -> (r: JsonValue)
    ensures
        r@ == attachments_json(items@),
{
    let mut out: Vec<JsonValue> = Vec::new();
    let mut i: usize = 0;
    while i < items.len()
        invariant
            i <= items@.len(),
            out@.len() == i,
            forall|j: int| 0 <= j < i ==> (#[trigger] out@[j])@ == items@[j].json(),
        decreases items@.len() - i,
    {
        out.push(items[i].to_json());
        i = i + 1;
    }
    let r = JsonValue::Array(out);
    assert(r@ =~= attachments_json(items@)) by {
        if let JsonView::Array(a) = r@ {
            assert(a =~= Seq::new(items@.len(), |i: int| items@[i].json()));
        }
    }
    r
}

// ---------------------------------------------------------------------------
// Replies to requests
// ---------------------------------------------------------------------------


/// Reply to `start_session`.
#[derive(Debug)]
pub struct StartSessionResponse {
    pub status: String,
    pub session_id: String,
    pub loaded_tools: u32,
    pub memory_snapshots: u32,
}

/// Reply to `end_session`.
#[derive(Debug)]
pub struct EndSessionResponse {
    pub status: String,
    pub turns_processed: u32,
    pub total_tokens: u64,
}

/// Reply to `handle_message`: the agent has accepted the message.
#[derive(Debug)]
pub struct HandleMessageResponse {
    pub status: String,
    pub message_id: String,
}

/// Reply to `ping`.
#[derive(Debug)]
pub struct PingResponse {
    pub status: String,
    pub sessions: u32,
}

/// The fields of a reply to `start_session`, in declaration order.
pub open spec fn start_session_fields() -> Seq<(Seq<char>, FieldKind)> {
    seq![("status"@, FieldKind::Str), ("session_id"@, FieldKind::Str), ("loaded_tools"@, FieldKind::U32), ("memory_snapshots"@, FieldKind::U32)]
}

fn start_session_table() -> (r: Vec<(&'static str, FieldKind)>)
    ensures
        table(r@) == start_session_fields(),
{
    let r = vec![("status", FieldKind::Str), ("session_id", FieldKind::Str), ("loaded_tools", FieldKind::U32), ("memory_snapshots", FieldKind::U32)];
    assert(table(r@) =~= start_session_fields());
    r
}

proof fn lemma_start_session_names_distinct()
    ensures
        names_distinct(start_session_fields()),
{
    reveal_strlit("status");
    reveal_strlit("session_id");
    reveal_strlit("loaded_tools");
    reveal_strlit("memory_snapshots");
    let t = start_session_fields();
    assert(t[0].0.len() == 6);
    assert(t[1].0.len() == 10);
    assert(t[2].0.len() == 12);
    assert(t[3].0.len() == 16);
    assert forall|i: int, j: int| 0 <= i < t.len() && 0 <= j < t.len() && i != j implies t[i].0 != t[j].0 by {
        if i == 0 {
            if j == 0 {
            } else if j == 1 {
            } else if j == 2 {
            } else if j == 3 {
            }
        } else if i == 1 {
            if j == 0 {
            } else if j == 1 {
            } else if j == 2 {
            } else if j == 3 {
            }
        } else if i == 2 {
            if j == 0 {
            } else if j == 1 {
            } else if j == 2 {
            } else if j == 3 {
            }
        } else if i == 3 {
            if j == 0 {
            } else if j == 1 {
            } else if j == 2 {
            } else if j == 3 {
            }
        }
    }
}

impl StartSessionResponse {
    /// Why `v` does not read as a reply to `start_session`, as `serde_json` reports it.
    pub open spec fn decode_error(v: JsonView) -> Option<Seq<char>> {
        struct_error("StartSessionResponse"@, start_session_fields(), v, scalar_judge())
    }

    /// `self` holds the fields of `v`.
    pub open spec fn decoded_from(self, v: JsonView) -> bool {
        &&& member(v, "status"@, 0) == Some(JsonView::Str(self.status@))
        &&& member(v, "session_id"@, 1) == Some(JsonView::Str(self.session_id@))
        &&& member(v, "loaded_tools"@, 2) == Some(JsonView::Number(NumberView::PosInt(self.loaded_tools as u64)))
        &&& member(v, "memory_snapshots"@, 3) == Some(JsonView::Number(NumberView::PosInt(self.memory_snapshots as u64)))
    }

    /// Reads `v` as a reply to `start_session`.
    pub fn from_json(v: &JsonValue) -> (r: Result<StartSessionResponse, String>)
        ensures
            match r {
                Ok(x) => Self::decode_error(v@) is None && x.decoded_from(v@),
                Err(e) => Self::decode_error(v@) == Some(e@),
            },
    {
        let fields = start_session_table();
        proof {
            lemma_start_session_names_distinct();
        }
        match struct_check("StartSessionResponse", &fields, v, false) {
            Some(e) => return Err(e),
            None => {},
        }
        proof {
            lemma_struct_ok("StartSessionResponse"@, start_session_fields(), v@, scalar_judge(), 0);
            lemma_struct_ok("StartSessionResponse"@, start_session_fields(), v@, scalar_judge(), 1);
            lemma_struct_ok("StartSessionResponse"@, start_session_fields(), v@, scalar_judge(), 2);
            lemma_struct_ok("StartSessionResponse"@, start_session_fields(), v@, scalar_judge(), 3);
        }
        let status = take_str(v, "status", 0);
        let session_id = take_str(v, "session_id", 1);
        let loaded_tools = take_u32(v, "loaded_tools", 2);
        let memory_snapshots = take_u32(v, "memory_snapshots", 3);
        Ok(StartSessionResponse { status, session_id, loaded_tools, memory_snapshots })
    }
}

/// The fields of a reply to `end_session`, in declaration order.
pub open spec fn end_session_fields() -> Seq<(Seq<char>, FieldKind)> {
    seq![("status"@, FieldKind::Str), ("turns_processed"@, FieldKind::U32), ("total_tokens"@, FieldKind::U64)]
}

fn end_session_table() -> (r: Vec<(&'static str, FieldKind)>)
    ensures
        table(r@) == end_session_fields(),
{
    let r = vec![("status", FieldKind::Str), ("turns_processed", FieldKind::U32), ("total_tokens", FieldKind::U64)];
    assert(table(r@) =~= end_session_fields());
    r
}

proof fn lemma_end_session_names_distinct()
    ensures
        names_distinct(end_session_fields()),
{
    reveal_strlit("status");
    reveal_strlit("turns_processed");
    reveal_strlit("total_tokens");
    let t = end_session_fields();
    assert(t[0].0.len() == 6);
    assert(t[1].0.len() == 15);
    assert(t[2].0.len() == 12);
    assert forall|i: int, j: int| 0 <= i < t.len() && 0 <= j < t.len() && i != j implies t[i].0 != t[j].0 by {
        if i == 0 {
            if j == 0 {
            } else if j == 1 {
            } else if j == 2 {
            }
        } else if i == 1 {
            if j == 0 {
            } else if j == 1 {
            } else if j == 2 {
            }
        } else if i == 2 {
            if j == 0 {
            } else if j == 1 {
            } else if j == 2 {
            }
        }
    }
}

impl EndSessionResponse {
    /// Why `v` does not read as a reply to `end_session`, as `serde_json` reports it.
    pub open spec fn decode_error(v: JsonView) -> Option<Seq<char>> {
        struct_error("EndSessionResponse"@, end_session_fields(), v, scalar_judge())
    }

    /// `self` holds the fields of `v`.
    pub open spec fn decoded_from(self, v: JsonView) -> bool {
        &&& member(v, "status"@, 0) == Some(JsonView::Str(self.status@))
        &&& member(v, "turns_processed"@, 1) == Some(JsonView::Number(NumberView::PosInt(self.turns_processed as u64)))
        &&& member(v, "total_tokens"@, 2) == Some(JsonView::Number(NumberView::PosInt(self.total_tokens)))
    }

    /// Reads `v` as a reply to `end_session`.
    pub fn from_json(v: &JsonValue) -> (r: Result<EndSessionResponse, String>)
        ensures
            match r {
                Ok(x) => Self::decode_error(v@) is None && x.decoded_from(v@),
                Err(e) => Self::decode_error(v@) == Some(e@),
            },
    {
        let fields = end_session_table();
        proof {
            lemma_end_session_names_distinct();
        }
        match struct_check("EndSessionResponse", &fields, v, false) {
            Some(e) => return Err(e),
            None => {},
        }
        proof {
            lemma_struct_ok("EndSessionResponse"@, end_session_fields(), v@, scalar_judge(), 0);
            lemma_struct_ok("EndSessionResponse"@, end_session_fields(), v@, scalar_judge(), 1);
            lemma_struct_ok("EndSessionResponse"@, end_session_fields(), v@, scalar_judge(), 2);
        }
        let status = take_str(v, "status", 0);
        let turns_processed = take_u32(v, "turns_processed", 1);
        let total_tokens = take_u64(v, "total_tokens", 2);
        Ok(EndSessionResponse { status, turns_processed, total_tokens })
    }
}

/// The fields of a reply to `handle_message`, in declaration order.
pub open spec fn handle_message_fields() -> Seq<(Seq<char>, FieldKind)> {
    seq![("status"@, FieldKind::Str), ("message_id"@, FieldKind::Str)]
}

fn handle_message_table() -> (r: Vec<(&'static str, FieldKind)>)
    ensures
        table(r@) == handle_message_fields(),
{
    let r = vec![("status", FieldKind::Str), ("message_id", FieldKind::Str)];
    assert(table(r@) =~= handle_message_fields());
    r
}

proof fn lemma_handle_message_names_distinct()
    ensures
        names_distinct(handle_message_fields()),
{
    reveal_strlit("status");
    reveal_strlit("message_id");
    let t = handle_message_fields();
    assert(t[0].0.len() == 6);
    assert(t[1].0.len() == 10);
    assert forall|i: int, j: int| 0 <= i < t.len() && 0 <= j < t.len() && i != j implies t[i].0 != t[j].0 by {
        if i == 0 {
            if j == 0 {
            } else if j == 1 {
            }
        } else if i == 1 {
            if j == 0 {
            } else if j == 1 {
            }
        }
    }
}

impl HandleMessageResponse {
    /// Why `v` does not read as a reply to `handle_message`, as `serde_json` reports it.
    pub open spec fn decode_error(v: JsonView) -> Option<Seq<char>> {
        struct_error("HandleMessageResponse"@, handle_message_fields(), v, scalar_judge())
    }

    /// `self` holds the fields of `v`.
    pub open spec fn decoded_from(self, v: JsonView) -> bool {
        &&& member(v, "status"@, 0) == Some(JsonView::Str(self.status@))
        &&& member(v, "message_id"@, 1) == Some(JsonView::Str(self.message_id@))
    }

    /// Reads `v` as a reply to `handle_message`.
    pub fn from_json(v: &JsonValue) -> (r: Result<HandleMessageResponse, String>)
        ensures
            match r {
                Ok(x) => Self::decode_error(v@) is None && x.decoded_from(v@),
                Err(e) => Self::decode_error(v@) == Some(e@),
            },
    {
        let fields = handle_message_table();
        proof {
            lemma_handle_message_names_distinct();
        }
        match struct_check("HandleMessageResponse", &fields, v, false) {
            Some(e) => return Err(e),
            None => {},
        }
        proof {
            lemma_struct_ok("HandleMessageResponse"@, handle_message_fields(), v@, scalar_judge(), 0);
            lemma_struct_ok("HandleMessageResponse"@, handle_message_fields(), v@, scalar_judge(), 1);
        }
        let status = take_str(v, "status", 0);
        let message_id = take_str(v, "message_id", 1);
        Ok(HandleMessageResponse { status, message_id })
    }
}

/// The fields of a reply to `ping`, in declaration order.
pub open spec fn ping_fields() -> Seq<(Seq<char>, FieldKind)> {
    seq![("status"@, FieldKind::Str), ("sessions"@, FieldKind::U32)]
}

fn ping_table() -> (r: Vec<(&'static str, FieldKind)>)
    ensures
        table(r@) == ping_fields(),
{
    let r = vec![("status", FieldKind::Str), ("sessions", FieldKind::U32)];
    assert(table(r@) =~= ping_fields());
    r
}

proof fn lemma_ping_names_distinct()
    ensures
        names_distinct(ping_fields()),
{
    reveal_strlit("status");
    reveal_strlit("sessions");
    let t = ping_fields();
    assert(t[0].0.len() == 6);
    assert(t[1].0.len() == 8);
    assert forall|i: int, j: int| 0 <= i < t.len() && 0 <= j < t.len() && i != j implies t[i].0 != t[j].0 by {
        if i == 0 {
            if j == 0 {
            } else if j == 1 {
            }
        } else if i == 1 {
            if j == 0 {
            } else if j == 1 {
            }
        }
    }
}

impl PingResponse {
    /// Why `v` does not read as a reply to `ping`, as `serde_json` reports it.
    pub open spec fn decode_error(v: JsonView) -> Option<Seq<char>> {
        struct_error("PingResponse"@, ping_fields(), v, scalar_judge())
    }

    /// `self` holds the fields of `v`.
    pub open spec fn decoded_from(self, v: JsonView) -> bool {
        &&& member(v, "status"@, 0) == Some(JsonView::Str(self.status@))
        &&& member(v, "sessions"@, 1) == Some(JsonView::Number(NumberView::PosInt(self.sessions as u64)))
    }

    /// Reads `v` as a reply to `ping`.
    pub fn from_json(v: &JsonValue) -> (r: Result<PingResponse, String>)
        ensures
            match r {
                Ok(x) => Self::decode_error(v@) is None && x.decoded_from(v@),
                Err(e) => Self::decode_error(v@) == Some(e@),
            },
    {
        let fields = ping_table();
        proof {
            lemma_ping_names_distinct();
        }
        match struct_check("PingResponse", &fields, v, false) {
            Some(e) => return Err(e),
            None => {},
        }
        proof {
            lemma_struct_ok("PingResponse"@, ping_fields(), v@, scalar_judge(), 0);
            lemma_struct_ok("PingResponse"@, ping_fields(), v@, scalar_judge(), 1);
        }
        let status = take_str(v, "status", 0);
        let sessions = take_u32(v, "sessions", 1);
        Ok(PingResponse { status, sessions })
    }
}

// ---------------------------------------------------------------------------
// Metadata of a completed message
// ---------------------------------------------------------------------------

/// Token counts of one reply.
#[derive(Debug)]
pub struct TokenUsage {
    pub input: u64,
    pub output: u64,
}

/// What the agent reports with its final reply.
#[derive(Debug)]
pub struct MessageMetadata {
    pub model: String,
    pub provider: String,
    pub ttft_ms: Option<u64>,
    pub total_time_ms: u64,
    pub tool_count: u32,
    pub tokens: TokenUsage,
}

proof fn lemma_token_names_distinct()
    ensures
        names_distinct(token_fields()),
{
    reveal_strlit("input");
    reveal_strlit("output");
    let t = token_fields();
    assert(t[0].0.len() == 5);
    assert(t[1].0.len() == 6);
    assert forall|i: int, j: int| 0 <= i < t.len() && 0 <= j < t.len() && i != j implies t[i].0 != t[j].0 by {
        if i == 0 {
            if j == 0 {
            } else if j == 1 {
            }
        } else if i == 1 {
            if j == 0 {
            } else if j == 1 {
            }
        }
    }
}

impl TokenUsage {
    /// Why `v` does not read as token counts, as `serde_json` reports it.
    pub open spec fn decode_error(v: JsonView) -> Option<Seq<char>> {
        tokens_error(v)
    }

    /// `self` holds the fields of `v`.
    pub open spec fn decoded_from(self, v: JsonView) -> bool {
        &&& member(v, "input"@, 0) == Some(JsonView::Number(NumberView::PosInt(self.input)))
        &&& member(v, "output"@, 1) == Some(JsonView::Number(NumberView::PosInt(self.output)))
    }

    /// Reads `v` as token counts.
    pub fn from_json(v: &JsonValue) -> (r: Result<TokenUsage, String>)
        ensures
            match r {
                Ok(x) => Self::decode_error(v@) is None && x.decoded_from(v@),
                Err(e) => Self::decode_error(v@) == Some(e@),
            },
    {
        let fields = token_table();
        proof {
            lemma_token_names_distinct();
        }
        match struct_check("TokenUsage", &fields, v, false) {
            Some(e) => return Err(e),
            None => {},
        }
        proof {
            lemma_struct_ok("TokenUsage"@, token_fields(), v@, scalar_judge(), 0);
            lemma_struct_ok("TokenUsage"@, token_fields(), v@, scalar_judge(), 1);
        }
        let input = take_u64(v, "input", 0);
        let output = take_u64(v, "output", 1);
        Ok(TokenUsage { input, output })
    }
}

/// The fields of message metadata, in declaration order.
pub open spec fn metadata_fields() -> Seq<(Seq<char>, FieldKind)> {
    seq![("model"@, FieldKind::Str), ("provider"@, FieldKind::Str), ("ttft_ms"@, FieldKind::OptU64), ("total_time_ms"@, FieldKind::U64), ("tool_count"@, FieldKind::U32), ("tokens"@, FieldKind::Tokens)]
}

fn metadata_table() -> (r: Vec<(&'static str, FieldKind)>)
    ensures
        table(r@) == metadata_fields(),
{
    let r = vec![("model", FieldKind::Str), ("provider", FieldKind::Str), ("ttft_ms", FieldKind::OptU64), ("total_time_ms", FieldKind::U64), ("tool_count", FieldKind::U32), ("tokens", FieldKind::Tokens)];
    assert(table(r@) =~= metadata_fields());
    r
}

proof fn lemma_metadata_names_distinct()
    ensures
        names_distinct(metadata_fields()),
{
    reveal_strlit("model");
    reveal_strlit("provider");
    reveal_strlit("ttft_ms");
    reveal_strlit("total_time_ms");
    reveal_strlit("tool_count");
    reveal_strlit("tokens");
    let t = metadata_fields();
    assert(t[0].0.len() == 5);
    assert(t[1].0.len() == 8);
    assert(t[2].0.len() == 7);
    assert(t[3].0.len() == 13);
    assert(t[4].0.len() == 10);
    assert(t[5].0.len() == 6);
    assert forall|i: int, j: int| 0 <= i < t.len() && 0 <= j < t.len() && i != j implies t[i].0 != t[j].0 by {
        if i == 0 {
            if j == 0 {
            } else if j == 1 {
            } else if j == 2 {
            } else if j == 3 {
            } else if j == 4 {
            } else if j == 5 {
            }
        } else if i == 1 {
            if j == 0 {
            } else if j == 1 {
            } else if j == 2 {
            } else if j == 3 {
            } else if j == 4 {
            } else if j == 5 {
            }
        } else if i == 2 {
            if j == 0 {
            } else if j == 1 {
            } else if j == 2 {
            } else if j == 3 {
            } else if j == 4 {
            } else if j == 5 {
            }
        } else if i == 3 {
            if j == 0 {
            } else if j == 1 {
            } else if j == 2 {
            } else if j == 3 {
            } else if j == 4 {
            } else if j == 5 {
            }
        } else if i == 4 {
            if j == 0 {
            } else if j == 1 {
            } else if j == 2 {
            } else if j == 3 {
            } else if j == 4 {
            } else if j == 5 {
            }
        } else if i == 5 {
            if j == 0 {
            } else if j == 1 {
            } else if j == 2 {
            } else if j == 3 {
            } else if j == 4 {
            } else if j == 5 {
            }
        }
    }
}

impl MessageMetadata {
    /// Why `v` does not read as message metadata, as `serde_json` reports it.
    pub open spec fn decode_error(v: JsonView) -> Option<Seq<char>> {
        struct_error("MessageMetadata"@, metadata_fields(), v, full_judge())
    }

    /// `self` holds the fields of `v`.
    pub open spec fn decoded_from(self, v: JsonView) -> bool {
        &&& member(v, "model"@, 0) == Some(JsonView::Str(self.model@))
        &&& member(v, "provider"@, 1) == Some(JsonView::Str(self.provider@))
        &&& opt_u64_in(member(v, "ttft_ms"@, 2), self.ttft_ms)
        &&& member(v, "total_time_ms"@, 3) == Some(JsonView::Number(NumberView::PosInt(self.total_time_ms)))
        &&& member(v, "tool_count"@, 4) == Some(JsonView::Number(NumberView::PosInt(self.tool_count as u64)))
        &&& member(v, "tokens"@, 5) matches Some(x) && self.tokens.decoded_from(x)
    }

    /// Reads `v` as message metadata.
    pub fn from_json(v: &JsonValue) -> (r: Result<MessageMetadata, String>)
        ensures
            match r {
                Ok(x) => Self::decode_error(v@) is None && x.decoded_from(v@),
                Err(e) => Self::decode_error(v@) == Some(e@),
            },
    {
        let fields = metadata_table();
        proof {
            lemma_metadata_names_distinct();
        }
        match struct_check("MessageMetadata", &fields, v, true) {
            Some(e) => return Err(e),
            None => {},
        }
        proof {
            lemma_struct_ok("MessageMetadata"@, metadata_fields(), v@, full_judge(), 0);
            lemma_struct_ok("MessageMetadata"@, metadata_fields(), v@, full_judge(), 1);
            lemma_struct_ok("MessageMetadata"@, metadata_fields(), v@, full_judge(), 2);
            lemma_struct_ok("MessageMetadata"@, metadata_fields(), v@, full_judge(), 3);
            lemma_struct_ok("MessageMetadata"@, metadata_fields(), v@, full_judge(), 4);
            lemma_struct_ok("MessageMetadata"@, metadata_fields(), v@, full_judge(), 5);
        }
        let model = take_str(v, "model", 0);
        let provider = take_str(v, "provider", 1);
        let ttft_ms = take_opt_u64(v, "ttft_ms", 2);
        let total_time_ms = take_u64(v, "total_time_ms", 3);
        let tool_count = take_u32(v, "tool_count", 4);
        let tokens = match member_ref(v, "tokens", 5) {
            Some(x) => match TokenUsage::from_json(x) {
                Ok(u) => u,
                Err(e) => return Err(e),
            },
            None => return Err(String::new()),
        };
        Ok(MessageMetadata { model, provider, ttft_ms, total_time_ms, tool_count, tokens })
    }
}

/// Read as a reply to `start_session`, each field holds the member of its own name (from an
/// object) or the item at its position (from an array).
pub proof fn law_start_session_fields_by_name(x: StartSessionResponse, v: JsonView)
    requires
        x.decoded_from(v),
    ensures
        v is Object ==> {
            &&& v.get("status"@) == Some(JsonView::Str(x.status@))
            &&& v.get("session_id"@) == Some(JsonView::Str(x.session_id@))
            &&& v.get("loaded_tools"@) == Some(JsonView::Number(NumberView::PosInt(x.loaded_tools as u64)))
            &&& v.get("memory_snapshots"@) == Some(JsonView::Number(NumberView::PosInt(x.memory_snapshots as u64)))
        },
        v matches JsonView::Array(items) ==> {
            &&& items.len() > 0 && items[0] == JsonView::Str(x.status@)
            &&& items.len() > 1 && items[1] == JsonView::Str(x.session_id@)
            &&& items.len() > 2 && items[2] == JsonView::Number(NumberView::PosInt(x.loaded_tools as u64))
            &&& items.len() > 3 && items[3] == JsonView::Number(NumberView::PosInt(x.memory_snapshots as u64))
        },
{
}

/// Read as a reply to `end_session`, each field holds the member of its own name (from an
/// object) or the item at its position (from an array).
pub proof fn law_end_session_fields_by_name(x: EndSessionResponse, v: JsonView)
    requires
        x.decoded_from(v),
    ensures
        v is Object ==> {
            &&& v.get("status"@) == Some(JsonView::Str(x.status@))
            &&& v.get("turns_processed"@) == Some(JsonView::Number(NumberView::PosInt(x.turns_processed as u64)))
            &&& v.get("total_tokens"@) == Some(JsonView::Number(NumberView::PosInt(x.total_tokens)))
        },
        v matches JsonView::Array(items) ==> {
            &&& items.len() > 0 && items[0] == JsonView::Str(x.status@)
            &&& items.len() > 1 && items[1] == JsonView::Number(NumberView::PosInt(x.turns_processed as u64))
            &&& items.len() > 2 && items[2] == JsonView::Number(NumberView::PosInt(x.total_tokens))
        },
{
}

/// Read as a reply to `handle_message`, each field holds the member of its own name (from an
/// object) or the item at its position (from an array).
pub proof fn law_handle_message_fields_by_name(x: HandleMessageResponse, v: JsonView)
    requires
        x.decoded_from(v),
    ensures
        v is Object ==> {
            &&& v.get("status"@) == Some(JsonView::Str(x.status@))
            &&& v.get("message_id"@) == Some(JsonView::Str(x.message_id@))
        },
        v matches JsonView::Array(items) ==> {
            &&& items.len() > 0 && items[0] == JsonView::Str(x.status@)
            &&& items.len() > 1 && items[1] == JsonView::Str(x.message_id@)
        },
{
}

/// Read as a reply to `ping`, each field holds the member of its own name (from an
/// object) or the item at its position (from an array).
pub proof fn law_ping_fields_by_name(x: PingResponse, v: JsonView)
    requires
        x.decoded_from(v),
    ensures
        v is Object ==> {
            &&& v.get("status"@) == Some(JsonView::Str(x.status@))
            &&& v.get("sessions"@) == Some(JsonView::Number(NumberView::PosInt(x.sessions as u64)))
        },
        v matches JsonView::Array(items) ==> {
            &&& items.len() > 0 && items[0] == JsonView::Str(x.status@)
            &&& items.len() > 1 && items[1] == JsonView::Number(NumberView::PosInt(x.sessions as u64))
        },
{
}

/// Read as token counts, each field holds the member of its own name (from an
/// object) or the item at its position (from an array).
pub proof fn law_token_fields_by_name(x: TokenUsage, v: JsonView)
    requires
        x.decoded_from(v),
    ensures
        v is Object ==> {
            &&& v.get("input"@) == Some(JsonView::Number(NumberView::PosInt(x.input)))
            &&& v.get("output"@) == Some(JsonView::Number(NumberView::PosInt(x.output)))
        },
        v matches JsonView::Array(items) ==> {
            &&& items.len() > 0 && items[0] == JsonView::Number(NumberView::PosInt(x.input))
            &&& items.len() > 1 && items[1] == JsonView::Number(NumberView::PosInt(x.output))
        },
{
}

/// Read as message metadata, each field holds the member of its own name (from an
/// object) or the item at its position (from an array).
pub proof fn law_metadata_fields_by_name(x: MessageMetadata, v: JsonView)
    requires
        x.decoded_from(v),
    ensures
        v is Object ==> {
            &&& v.get("model"@) == Some(JsonView::Str(x.model@))
            &&& v.get("provider"@) == Some(JsonView::Str(x.provider@))
            &&& match x.ttft_ms { Some(u) => v.get("ttft_ms"@) == Some(JsonView::Number(NumberView::PosInt(u))), None => v.get("ttft_ms"@) is None || v.get("ttft_ms"@) == Some(JsonView::Null) }
            &&& v.get("total_time_ms"@) == Some(JsonView::Number(NumberView::PosInt(x.total_time_ms)))
            &&& v.get("tool_count"@) == Some(JsonView::Number(NumberView::PosInt(x.tool_count as u64)))
            &&& (v.get("tokens"@) matches Some(t) && (t is Object ==> t.get("input"@) == Some(JsonView::Number(NumberView::PosInt(x.tokens.input))) && t.get("output"@) == Some(JsonView::Number(NumberView::PosInt(x.tokens.output)))))
        },
        v matches JsonView::Array(items) ==> {
            &&& items.len() > 0 && items[0] == JsonView::Str(x.model@)
            &&& items.len() > 1 && items[1] == JsonView::Str(x.provider@)
            &&& items.len() > 2 && match x.ttft_ms { Some(u) => items[2] == JsonView::Number(NumberView::PosInt(u)), None => items[2] == JsonView::Null }
            &&& items.len() > 3 && items[3] == JsonView::Number(NumberView::PosInt(x.total_time_ms))
            &&& items.len() > 4 && items[4] == JsonView::Number(NumberView::PosInt(x.tool_count as u64))
            &&& items.len() > 5 && (items[5] is Object ==> items[5].get("input"@) == Some(JsonView::Number(NumberView::PosInt(x.tokens.input))) && items[5].get("output"@) == Some(JsonView::Number(NumberView::PosInt(x.tokens.output))))
        },
{
    if let Some(t) = member(v, "tokens"@, 5) {
        law_token_fields_by_name(x.tokens, t);
    }
}

/// The budget sent to the agent names each limit after its field:
/// `max_usd`, `max_input_tokens` and `max_output_tokens` each hold their own
/// limit, `null` when there is none.
pub proof fn law_budget_json_members(b: BudgetConfig)
    ensures
        b.json().get("max_usd"@) == Some(
            match b.max_usd {
                Some(n) => JsonView::Number(n@),
                None => JsonView::Null,
            },
        ),
        b.json().get("max_input_tokens"@) == Some(
            match b.max_input_tokens {
                Some(u) => JsonView::Number(NumberView::PosInt(u)),
                None => JsonView::Null,
            },
        ),
        b.json().get("max_output_tokens"@) == Some(
            match b.max_output_tokens {
                Some(u) => JsonView::Number(NumberView::PosInt(u)),
                None => JsonView::Null,
            },
        ),
{
    reveal_with_fuel(crate::json::assoc_get, 4);
    reveal_strlit("max_usd");
    reveal_strlit("max_input_tokens");
    reveal_strlit("max_output_tokens");
    assert("max_usd"@.len() == 7);
    assert("max_input_tokens"@.len() == 16);
    assert("max_output_tokens"@.len() == 17);
}

/// The session configuration sent to the agent names each setting after its
/// field: `model`, `max_turns` and `personality` hold their values (`null`
/// when absent), `toolsets` the toolset names in order, and `budget` the
/// budget (`null` when absent).
pub proof fn law_session_config_json_members(c: SessionConfig)
    ensures
        c.json().get("model"@) == Some(
            match c.model {
                Some(m) => JsonView::Str(m@),
                None => JsonView::Null,
            },
        ),
        c.json().get("max_turns"@) == Some(
            match c.max_turns {
                Some(t) => JsonView::Number(NumberView::PosInt(t as u64)),
                None => JsonView::Null,
            },
        ),
        c.json().get("toolsets"@) matches Some(JsonView::Array(a)) && a.len() == c.toolsets@.len() && forall|i: int|
            0 <= i < a.len() ==> #[trigger] a[i] == JsonView::Str(c.toolsets@[i]@),
        c.json().get("personality"@) == Some(
            match c.personality {
                Some(p) => JsonView::Str(p@),
                None => JsonView::Null,
            },
        ),
        c.json().get("budget"@) == Some(
            match c.budget {
                Some(b) => b.json(),
                None => JsonView::Null,
            },
        ),
{
    reveal_with_fuel(crate::json::assoc_get, 6);
    reveal_strlit("model");
    reveal_strlit("max_turns");
    reveal_strlit("toolsets");
    reveal_strlit("personality");
    reveal_strlit("budget");
    assert("model"@.len() == 5);
    assert("max_turns"@.len() == 9);
    assert("toolsets"@.len() == 8);
    assert("personality"@.len() == 11);
    assert("budget"@.len() == 6);
}

/// An attachment sent to the agent names each field: `type` is its kind,
/// `url` its URL, `caption` its caption (`null` when absent).
pub proof fn law_attachment_json_members(a: MessageAttachment)
    ensures
        a.json().get("type"@) == Some(JsonView::Str(a.attachment_type@)),
        a.json().get("url"@) == Some(JsonView::Str(a.url@)),
        a.json().get("caption"@) == Some(
            match a.caption {
                Some(c) => JsonView::Str(c@),
                None => JsonView::Null,
            },
        ),
{
    reveal_with_fuel(crate::json::assoc_get, 4);
    reveal_strlit("type");
    reveal_strlit("url");
    reveal_strlit("caption");
    assert("type"@.len() == 4);
    assert("url"@.len() == 3);
    assert("caption"@.len() == 7);
}

// ---------------------------------------------------------------------------
// Notifications from the agent
// ---------------------------------------------------------------------------

/// A notification from the agent, decoded.
#[derive(Debug)]
pub enum AgentNotification {
    /// The agent started typing.
    TypingStart { session_id: String, chat_id: String },
    /// A piece of the reply as it is generated.
    StreamChunk { session_id: String, chat_id: String, text: String, is_final: bool },
    /// A tool started running.
    ToolStarted { session_id: String, chat_id: String, tool_name: String, tool_params: JsonValue },
    /// A tool finished.
    ToolCompleted {
        session_id: String,
        chat_id: String,
        tool_name: String,
        success: bool,
        duration_ms: u64,
        result_preview: Option<String>,
    },
    /// The final reply to a message.
    MessageComplete { session_id: String, chat_id: String, text: String, metadata: MessageMetadata },
    /// Processing failed.
    Error {
        session_id: String,
        chat_id: String,
        error_type: String,
        message: String,
        retry_after_secs: Option<u64>,
    },
}

/// The first of `keys` that is not a string member of `p`, as "Missing <key>".
pub open spec fn first_missing(p: JsonView, keys: Seq<Seq<char>>) -> Option<Seq<char>>
    decreases keys.len(),
{
    if keys.len() == 0 {
        None
    } else if p.str_at(keys[0]) is None {
        Some("Missing "@ + keys[0])
    } else {
        first_missing(p, keys.drop_first())
    }
}

/// Why a notification does not decode: an unknown method, metadata that does
/// not read as [`MessageMetadata`] (checked first for `message_complete`), or
/// the first required string member that is missing.
pub open spec fn from_rpc_error(n: NotificationView) -> Option<Seq<char>> {
    let p = n.params;
    if n.method == "typing_start"@ {
        first_missing(p, seq!["session_id"@, "chat_id"@])
    } else if n.method == "stream_chunk"@ {
        first_missing(p, seq!["session_id"@, "chat_id"@, "text"@])
    } else if n.method == "tool_started"@ {
        first_missing(p, seq!["session_id"@, "chat_id"@, "tool_name"@])
    } else if n.method == "tool_completed"@ {
        first_missing(p, seq!["session_id"@, "chat_id"@, "tool_name"@])
    } else if n.method == "message_complete"@ {
        match MessageMetadata::decode_error(p.index("metadata"@)) {
            Some(e) => Some("Invalid metadata: "@ + e),
            None => first_missing(p, seq!["session_id"@, "chat_id"@, "text"@]),
        }
    } else if n.method == "error"@ {
        first_missing(p, seq!["session_id"@, "chat_id"@, "error_type"@, "message"@])
    } else {
        Some("Unknown notification method: "@ + n.method)
    }
}

/// The string member `key` of `p` (meaningful when it exists).
pub open spec fn s_at(p: JsonView, key: Seq<char>) -> Seq<char> {
    p.str_at(key)->0
}

impl AgentNotification {
    /// `self` is what the notification `n` says: the variant named by its
    /// method, with the members of its parameters. Flags default to `false`,
    /// `duration_ms` to 0, `tool_params` to `null`.
    pub open spec fn decoded_from(self, n: NotificationView) -> bool {
        let p = n.params;
        match self {
            AgentNotification::TypingStart { session_id, chat_id } => {
                &&& n.method == "typing_start"@
                &&& session_id@ == s_at(p, "session_id"@)
                &&& chat_id@ == s_at(p, "chat_id"@)
            },
            AgentNotification::StreamChunk { session_id, chat_id, text, is_final } => {
                &&& n.method == "stream_chunk"@
                &&& session_id@ == s_at(p, "session_id"@)
                &&& chat_id@ == s_at(p, "chat_id"@)
                &&& text@ == s_at(p, "text"@)
                &&& is_final == (p.bool_at("is_final"@) == Some(true))
            },
            AgentNotification::ToolStarted { session_id, chat_id, tool_name, tool_params } => {
                &&& n.method == "tool_started"@
                &&& session_id@ == s_at(p, "session_id"@)
                &&& chat_id@ == s_at(p, "chat_id"@)
                &&& tool_name@ == s_at(p, "tool_name"@)
                &&& tool_params@ == p.index("tool_params"@)
            },
            AgentNotification::ToolCompleted {
                session_id,
                chat_id,
                tool_name,
                success,
                duration_ms,
                result_preview,
            } => {
                &&& n.method == "tool_completed"@
                &&& session_id@ == s_at(p, "session_id"@)
                &&& chat_id@ == s_at(p, "chat_id"@)
                &&& tool_name@ == s_at(p, "tool_name"@)
                &&& success == (p.bool_at("success"@) == Some(true))
                &&& duration_ms == (match p.u64_at("duration_ms"@) {
                    Some(d) => d,
                    None => 0u64,
                })
                &&& opt_str_view(result_preview) == p.str_at("result_preview"@)
            },
            AgentNotification::MessageComplete { session_id, chat_id, text, metadata } => {
                &&& n.method == "message_complete"@
                &&& session_id@ == s_at(p, "session_id"@)
                &&& chat_id@ == s_at(p, "chat_id"@)
                &&& text@ == s_at(p, "text"@)
                &&& metadata.decoded_from(p.index("metadata"@))
            },
            AgentNotification::Error { session_id, chat_id, error_type, message, retry_after_secs } => {
                &&& n.method == "error"@
                &&& session_id@ == s_at(p, "session_id"@)
                &&& chat_id@ == s_at(p, "chat_id"@)
                &&& error_type@ == s_at(p, "error_type"@)
                &&& message@ == s_at(p, "message"@)
                &&& retry_after_secs == p.u64_at("retry_after_secs"@)
            },
        }
    }

    /// The session this notification belongs to.
    pub open spec fn session_of(self) -> Seq<char> {
        match self {
            AgentNotification::TypingStart { session_id, .. } => session_id@,
            AgentNotification::StreamChunk { session_id, .. } => session_id@,
            AgentNotification::ToolStarted { session_id, .. } => session_id@,
            AgentNotification::ToolCompleted { session_id, .. } => session_id@,
            AgentNotification::MessageComplete { session_id, .. } => session_id@,
            AgentNotification::Error { session_id, .. } => session_id@,
        }
    }

    /// The session this notification belongs to.
    pub fn session_id(&self) -> (r: &String)
        ensures
            r@ == self.session_of(),
    {
        match self {
            AgentNotification::TypingStart { session_id, .. } => session_id,
            AgentNotification::StreamChunk { session_id, .. } => session_id,
            AgentNotification::ToolStarted { session_id, .. } => session_id,
            AgentNotification::ToolCompleted { session_id, .. } => session_id,
            AgentNotification::MessageComplete { session_id, .. } => session_id,
            AgentNotification::Error { session_id, .. } => session_id,
        }
    }

    /// Decodes a JSON-RPC notification from the agent.
    pub fn from_rpc(notif: &JsonRpcNotification) -> (r: Result<AgentNotification, GatewayError>)
        ensures
            match r {
                Ok(x) => from_rpc_error(notif@) is None && x.decoded_from(notif@),
                Err(GatewayError::Platform(m)) => from_rpc_error(notif@) == Some(m@),
            },
    {
        let p = &notif.params;
        let method = notif.method.as_str();
        proof {
            reveal_strlit("session_id");
            reveal_strlit("chat_id");
            reveal_strlit("text");
            reveal_strlit("tool_name");
            reveal_strlit("error_type");
            reveal_strlit("message");
            reveal_with_fuel(first_missing, 5);
        }
        if crate::text::str_eq(method, "typing_start") {
            let session_id = match required_str(p, "session_id") {
                Ok(x) => x,
                Err(e) => return Err(e),
            };
            let chat_id = match required_str(p, "chat_id") {
                Ok(x) => x,
                Err(e) => return Err(e),
            };
            Ok(AgentNotification::TypingStart { session_id, chat_id })
        } else if crate::text::str_eq(method, "stream_chunk") {
            let session_id = match required_str(p, "session_id") {
                Ok(x) => x,
                Err(e) => return Err(e),
            };
            let chat_id = match required_str(p, "chat_id") {
                Ok(x) => x,
                Err(e) => return Err(e),
            };
            let text = match required_str(p, "text") {
                Ok(x) => x,
                Err(e) => return Err(e),
            };
            let is_final = match p.bool_at("is_final") {
                Some(b) => b,
                None => false,
            };
            Ok(AgentNotification::StreamChunk { session_id, chat_id, text, is_final })
        } else if crate::text::str_eq(method, "tool_started") {
            let session_id = match required_str(p, "session_id") {
                Ok(x) => x,
                Err(e) => return Err(e),
            };
            let chat_id = match required_str(p, "chat_id") {
                Ok(x) => x,
                Err(e) => return Err(e),
            };
            let tool_name = match required_str(p, "tool_name") {
                Ok(x) => x,
                Err(e) => return Err(e),
            };
            let tool_params = p.index_clone("tool_params");
            Ok(AgentNotification::ToolStarted { session_id, chat_id, tool_name, tool_params })
        } else if crate::text::str_eq(method, "tool_completed") {
            let session_id = match required_str(p, "session_id") {
                Ok(x) => x,
                Err(e) => return Err(e),
            };
            let chat_id = match required_str(p, "chat_id") {
                Ok(x) => x,
                Err(e) => return Err(e),
            };
            let tool_name = match required_str(p, "tool_name") {
                Ok(x) => x,
                Err(e) => return Err(e),
            };
            let success = match p.bool_at("success") {
                Some(b) => b,
                None => false,
            };
            let duration_ms = match p.u64_at("duration_ms") {
                Some(d) => d,
                None => 0,
            };
            let result_preview = p.str_at("result_preview");
            Ok(
                AgentNotification::ToolCompleted {
                    session_id,
                    chat_id,
                    tool_name,
                    success,
                    duration_ms,
                    result_preview,
                },
            )
        } else if crate::text::str_eq(method, "message_complete") {
            let metadata_json = p.index_clone("metadata");
            let metadata = match MessageMetadata::from_json(&metadata_json) {
                Ok(m) => m,
                Err(e) => {
                    return Err(GatewayError::Platform(crate::text::join_str("Invalid metadata: ", e.as_str())));
                },
            };
            let session_id = match required_str(p, "session_id") {
                Ok(x) => x,
                Err(e) => return Err(e),
            };
            let chat_id = match required_str(p, "chat_id") {
                Ok(x) => x,
                Err(e) => return Err(e),
            };
            let text = match required_str(p, "text") {
                Ok(x) => x,
                Err(e) => return Err(e),
            };
            Ok(AgentNotification::MessageComplete { session_id, chat_id, text, metadata })
        } else if crate::text::str_eq(method, "error") {
            let session_id = match required_str(p, "session_id") {
                Ok(x) => x,
                Err(e) => return Err(e),
            };
            let chat_id = match required_str(p, "chat_id") {
                Ok(x) => x,
                Err(e) => return Err(e),
            };
            let error_type = match required_str(p, "error_type") {
                Ok(x) => x,
                Err(e) => return Err(e),
            };
            let message = match required_str(p, "message") {
                Ok(x) => x,
                Err(e) => return Err(e),
            };
            let retry_after_secs = p.u64_at("retry_after_secs");
            Ok(AgentNotification::Error { session_id, chat_id, error_type, message, retry_after_secs })
        } else {
            Err(GatewayError::Platform(crate::text::join_str("Unknown notification method: ", method)))
        }
    }
}

/// The string member `key` of `p`, or the error "Missing <key>".
fn required_str(p: &JsonValue, key: &str) -> (r: Result<String, GatewayError>)
    ensures
        match r {
            Ok(s) => p@.str_at(key@) == Some(s@),
            Err(GatewayError::Platform(m)) => p@.str_at(key@) is None && m@ == "Missing "@ + key@,
        },
{
    match p.str_at(key) {
        Some(s) => Ok(s),
        None => Err(GatewayError::Platform(crate::text::join_str("Missing ", key))),
    }
}

/// A decoded notification is the variant its method names, and each of its
/// fields holds the parameter of the same name: required strings are the
/// string members, flags are `true` only when the member is `true`,
/// `duration_ms` is the member or 0, optional members are absent as `None`,
/// and the metadata of a completed message is read from `metadata`.
pub proof fn law_notification_fields_by_name(x: AgentNotification, n: NotificationView)
    requires
        from_rpc_error(n) is None,
        x.decoded_from(n),
    ensures
        x is TypingStart ==> {
            &&& n.method == "typing_start"@
            &&& n.params.str_at("session_id"@) == Some(x->TypingStart_session_id@)
            &&& n.params.str_at("chat_id"@) == Some(x->TypingStart_chat_id@)
        },
        x is StreamChunk ==> {
            &&& n.method == "stream_chunk"@
            &&& n.params.str_at("session_id"@) == Some(x->StreamChunk_session_id@)
            &&& n.params.str_at("chat_id"@) == Some(x->StreamChunk_chat_id@)
            &&& n.params.str_at("text"@) == Some(x->StreamChunk_text@)
            &&& x->StreamChunk_is_final == (n.params.index("is_final"@) == JsonView::Bool(true))
        },
        x is ToolStarted ==> {
            &&& n.method == "tool_started"@
            &&& n.params.str_at("session_id"@) == Some(x->ToolStarted_session_id@)
            &&& n.params.str_at("chat_id"@) == Some(x->ToolStarted_chat_id@)
            &&& n.params.str_at("tool_name"@) == Some(x->ToolStarted_tool_name@)
            &&& x->ToolStarted_tool_params@ == n.params.index("tool_params"@)
        },
        x is ToolCompleted ==> {
            &&& n.method == "tool_completed"@
            &&& n.params.str_at("session_id"@) == Some(x->ToolCompleted_session_id@)
            &&& n.params.str_at("chat_id"@) == Some(x->ToolCompleted_chat_id@)
            &&& n.params.str_at("tool_name"@) == Some(x->ToolCompleted_tool_name@)
            &&& x->ToolCompleted_success == (n.params.index("success"@) == JsonView::Bool(true))
            &&& (n.params.index("duration_ms"@) matches JsonView::Number(NumberView::PosInt(d))
                ==> x->ToolCompleted_duration_ms == d)
            &&& (!(n.params.index("duration_ms"@) matches JsonView::Number(NumberView::PosInt(_)))
                ==> x->ToolCompleted_duration_ms == 0)
            &&& match x->ToolCompleted_result_preview {
                Some(r) => n.params.index("result_preview"@) == JsonView::Str(r@),
                None => !(n.params.index("result_preview"@) is Str),
            }
        },
        x is MessageComplete ==> {
            &&& n.method == "message_complete"@
            &&& n.params.str_at("session_id"@) == Some(x->MessageComplete_session_id@)
            &&& n.params.str_at("chat_id"@) == Some(x->MessageComplete_chat_id@)
            &&& n.params.str_at("text"@) == Some(x->MessageComplete_text@)
        },
        x is MessageComplete && n.params.index("metadata"@) is Object ==> {
            let md = n.params.index("metadata"@);
            let m = x->MessageComplete_metadata;
            &&& md.get("model"@) == Some(JsonView::Str(m.model@))
            &&& md.get("provider"@) == Some(JsonView::Str(m.provider@))
            &&& md.get("total_time_ms"@) == Some(JsonView::Number(NumberView::PosInt(m.total_time_ms)))
            &&& md.get("tool_count"@) == Some(JsonView::Number(NumberView::PosInt(m.tool_count as u64)))
        },
        x is Error ==> {
            &&& n.method == "error"@
            &&& n.params.str_at("session_id"@) == Some(x->Error_session_id@)
            &&& n.params.str_at("chat_id"@) == Some(x->Error_chat_id@)
            &&& n.params.str_at("error_type"@) == Some(x->Error_error_type@)
            &&& n.params.str_at("message"@) == Some(x->Error_message@)
            &&& match x->Error_retry_after_secs {
                Some(r) => n.params.index("retry_after_secs"@) == JsonView::Number(NumberView::PosInt(r)),
                None => !(n.params.index("retry_after_secs"@) matches JsonView::Number(NumberView::PosInt(_))),
            }
        },
{
    reveal_strlit("typing_start");
    reveal_strlit("stream_chunk");
    reveal_strlit("tool_started");
    reveal_strlit("tool_completed");
    reveal_strlit("message_complete");
    reveal_strlit("error");
    assert("stream_chunk"@[0] != "typing_start"@[0]);
    assert("tool_started"@[1] != "typing_start"@[1]);
    assert("tool_started"@[0] != "stream_chunk"@[0]);
    assert("tool_completed"@.len() == 14);
    assert("error"@.len() == 5);
    let p = n.params;
    if x is StreamChunk {
        lemma_first_missing_none(p, seq!["session_id"@, "chat_id"@, "text"@]);
    } else if x is ToolStarted || x is ToolCompleted {
        lemma_first_missing_none(p, seq!["session_id"@, "chat_id"@, "tool_name"@]);
    } else if x is MessageComplete {
        law_metadata_fields_by_name(x->MessageComplete_metadata, p.index("metadata"@));
        assert(n.method.len() == 16);
        assert(MessageMetadata::decode_error(p.index("metadata"@)) is None);
        lemma_first_missing_none(p, seq!["session_id"@, "chat_id"@, "text"@]);
    } else if x is Error {
        lemma_first_missing_none(p, seq!["session_id"@, "chat_id"@, "error_type"@, "message"@]);
    } else {
        lemma_first_missing_none(p, seq!["session_id"@, "chat_id"@]);
    }
}

/// When none of `keys` is missing, each is a string member.
proof fn lemma_first_missing_none(p: JsonView, keys: Seq<Seq<char>>)
    requires
        first_missing(p, keys) is None,
    ensures
        forall|i: int| 0 <= i < keys.len() ==> (#[trigger] p.str_at(keys[i])) is Some,
    decreases keys.len(),
{
    if keys.len() > 0 {
        lemma_first_missing_none(p, keys.drop_first());
        assert forall|i: int| 0 <= i < keys.len() implies (#[trigger] p.str_at(keys[i])) is Some by {
            if i > 0 {
                assert(keys[i] == keys.drop_first()[i - 1]);
            }
        }
    }
}

/// Why a notification of a known method is refused: a `message_complete`
/// whose metadata does not read is refused first, with "Invalid metadata: "
/// and the reason; otherwise the first required parameter that is not a
/// string is named, "Missing <name>", and `session_id` is the first of them
/// for every method.
pub proof fn law_notification_refusals(n: NotificationView)
    ensures
        n.method == "message_complete"@ ==> (MessageMetadata::decode_error(n.params.index("metadata"@)) matches Some(e)
            ==> from_rpc_error(n) == Some("Invalid metadata: "@ + e)),
        (n.method == "typing_start"@ || n.method == "stream_chunk"@ || n.method == "tool_started"@ || n.method
            == "tool_completed"@ || n.method == "error"@) && n.params.str_at("session_id"@) is None ==> from_rpc_error(n)
            == Some("Missing "@ + "session_id"@),
        n.method == "message_complete"@ && MessageMetadata::decode_error(n.params.index("metadata"@)) is None
            && n.params.str_at("session_id"@) is None ==> from_rpc_error(n) == Some("Missing "@ + "session_id"@),
        n.method == "typing_start"@ && n.params.str_at("session_id"@) is Some && n.params.str_at("chat_id"@) is None
            ==> from_rpc_error(n) == Some("Missing "@ + "chat_id"@),
{
    reveal_strlit("typing_start");
    reveal_strlit("stream_chunk");
    reveal_strlit("tool_started");
    reveal_strlit("tool_completed");
    reveal_strlit("message_complete");
    reveal_strlit("error");
    assert("stream_chunk"@[0] != "typing_start"@[0]);
    assert("tool_started"@[1] != "typing_start"@[1]);
    assert("tool_started"@[0] != "stream_chunk"@[0]);
    assert("tool_completed"@.len() == 14);
    assert("message_complete"@.len() == 16);
    assert("error"@.len() == 5);
    let p = n.params;
    let keys = seq!["session_id"@, "chat_id"@];
    if n.method == "typing_start"@ && p.str_at("session_id"@) is Some && p.str_at("chat_id"@) is None {
        assert(keys.drop_first() =~= seq!["chat_id"@]);
        assert(keys[0] == "session_id"@);
        assert(first_missing(p, keys) == first_missing(p, keys.drop_first()));
        assert(keys.drop_first()[0] == "chat_id"@);
        assert(first_missing(p, keys.drop_first()) == Some("Missing "@ + "chat_id"@));
    }
}

/// A notification with a method other than the six is refused as unknown.
pub proof fn law_unknown_method_refused(n: NotificationView)
    requires
        n.method != "typing_start"@,
        n.method != "stream_chunk"@,
        n.method != "tool_started"@,
        n.method != "tool_completed"@,
        n.method != "message_complete"@,
        n.method != "error"@,
    ensures
        from_rpc_error(n) == Some("Unknown notification method: "@ + n.method),
{
}

} // verus!
