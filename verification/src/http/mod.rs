//! The HTTP API's answers: bodies of its endpoints and its errors.

use vstd::prelude::*;
use vstd::string::*;
use crate::json::{JsonValue, JsonView, push_field, make_object, fields_view, json_string, json_str, jstr};
use crate::router::{RouterError, router_error_msg, session_id_for, session_key};
use crate::router::session::Session;

verus! {

/// A failure of an API request.
#[derive(Debug)]
pub enum ApiError {
    RouterError(RouterError),
    NotFound,
    Internal(String),
}

/// The text of an API failure.
pub open spec fn api_error_msg(e: ApiError) -> Seq<char> {
    match e {
        ApiError::RouterError(r) => "Router error: "@ + router_error_msg(r),
        ApiError::NotFound => "Not found"@,
        ApiError::Internal(m) => "Internal server error: "@ + m@,
    }
}

/// The HTTP status and the `error` text an API failure is answered with:
/// 404 "Not found" when nothing was found, else 500 with the router's text
/// or the internal message.
pub open spec fn api_error_response(e: ApiError) -> (u16, Seq<char>) {
    match e {
        ApiError::RouterError(r) => (500u16, router_error_msg(r)),
        ApiError::NotFound => (404u16, "Not found"@),
        ApiError::Internal(m) => (500u16, m@),
    }
}

impl ApiError {
    /// A routing failure.
    pub fn from_router(e: RouterError) -> (r: ApiError)
        ensures
            r == ApiError::RouterError(e),
    {
        ApiError::RouterError(e)
    }

    /// The text of this failure.
    pub fn message(&self) -> (r: String)
        ensures
            r@ == api_error_msg(*self),
    {
        match self {
            ApiError::RouterError(e) => {
                let inner = e.message();
                crate::text::join_str("Router error: ", inner.as_str())
            },
            ApiError::NotFound => String::from_str("Not found"),
            ApiError::Internal(m) => crate::text::join_str("Internal server error: ", m.as_str()),
        }
    }

    /// The HTTP status and the body `{"error": <text>}` of the answer.
    pub fn into_response(self) -> (r: (u16, JsonValue))
        ensures
            r.0 == api_error_response(self).0,
            r.1@ == JsonView::Object(seq![("error"@, jstr(api_error_response(self).1))]),
    {
        let (status, message) = match &self {
            ApiError::RouterError(e) => (500u16, e.message()),
            ApiError::NotFound => (404u16, String::from_str("Not found")),
            ApiError::Internal(m) => (500u16, m.clone()),
        };
        let mut f: Vec<(String, JsonValue)> = Vec::new();
        assert(fields_view(f@) =~= Seq::empty());
        push_field(&mut f, "error", json_string(message));
        assert(fields_view(f@) =~= seq![("error"@, jstr(api_error_response(self).1))]);
        (status, make_object(f))
    }
}

/// The body of the health check.
pub fn health_body() -> (r: JsonValue)
    ensures
        r@ == JsonView::Object(seq![("status"@, jstr("ok"@)), ("service"@, jstr("hermes-gateway"@))]),
{
    let mut f: Vec<(String, JsonValue)> = Vec::new();
    assert(fields_view(f@) =~= Seq::empty());
    push_field(&mut f, "status", json_str("ok"));
    push_field(&mut f, "service", json_str("hermes-gateway"));
    assert(fields_view(f@) =~= seq![("status"@, jstr("ok"@)), ("service"@, jstr("hermes-gateway"@))]);
    make_object(f)
}

/// The body answering an accepted message: status "processing" and the
/// session the message went to.
pub fn message_accepted_body(platform: &str, chat_id: &str) -> (r: JsonValue)
    ensures
        r@ == JsonView::Object(
            seq![("status"@, jstr("processing"@)), ("session_id"@, jstr(session_key(platform@, chat_id@)))],
        ),
{
    let sid = session_id_for(platform, chat_id);
    let mut f: Vec<(String, JsonValue)> = Vec::new();
    assert(fields_view(f@) =~= Seq::empty());
    push_field(&mut f, "status", json_str("processing"));
    push_field(&mut f, "session_id", json_string(sid));
    assert(fields_view(f@) =~= seq![
        ("status"@, jstr("processing"@)),
        ("session_id"@, jstr(session_key(platform@, chat_id@))),
    ]);
    make_object(f)
}

/// The body answering a session command: its status and the session id.
pub fn session_status_body(status: &str, session_id: &str) -> (r: JsonValue)
    ensures
        r@ == JsonView::Object(seq![("status"@, jstr(status@)), ("session_id"@, jstr(session_id@))]),
{
    let mut f: Vec<(String, JsonValue)> = Vec::new();
    assert(fields_view(f@) =~= Seq::empty());
    push_field(&mut f, "status", json_str(status));
    push_field(&mut f, "session_id", json_str(session_id));
    assert(fields_view(f@) =~= seq![("status"@, jstr(status@)), ("session_id"@, jstr(session_id@))]);
    make_object(f)
}

/// A session lookup for the API: not found when there is no session.
pub fn found_session(s: Option<Session>) -> (r: Result<Session, ApiError>)
    ensures
        match s {
            Some(x) => r matches Ok(y) && y == x,
            None => r matches Err(ApiError::NotFound),
        },
{
    match s {
        Some(x) => Ok(x),
        None => Err(ApiError::NotFound),
    }
}

/// The answer to an accepted message names the session the router routed it to.
pub proof fn law_answer_names_routed_session(
    msg: crate::router::InboundMessage,
    had: bool,
    model: Seq<char>,
    plan: crate::router::InboundPlan,
)
    requires
        crate::router::inbound_plan_for(msg, had, model, plan),
    ensures
        plan.session_id@ == session_key(msg.platform@, msg.chat_id@),
{
}

/// How API failures are answered: nothing found is 404 "Not found"; a
/// routing failure is 500 with the router's text; an internal failure is
/// 500 with its message.
pub proof fn law_api_error_statuses(e: ApiError)
    ensures
        e is NotFound ==> api_error_response(e) == (404u16, "Not found"@),
        e matches ApiError::RouterError(r) ==> api_error_response(e).0 == 500u16 && api_error_response(e).1
            == router_error_msg(r),
        e matches ApiError::Internal(m) ==> api_error_response(e) == (500u16, m@),
{
}

} // verus!
