//! Routing between platforms and the agent: session ids, attachment kinds,
//! and what an inbound message or a session command asks of the agent.

pub mod session;
pub mod stream;

use vstd::prelude::*;
use vstd::string::*;
use crate::error::GatewayError;
use crate::json::{JsonValue, JsonView};
use crate::router::session::{SessionManager, SessionConfig, SessionConfigView, SessionView, Timestamp, now};
use crate::router::stream::StreamManager;
use crate::text::{is_prefix, starts_with, join_str};
use crate::agent_bridge::types::{MessageAttachment, opt_str_view, StartSessionResponse, HandleMessageResponse};

verus! {

/// A message from a platform, to be routed to the agent.
#[derive(Debug)]
pub struct InboundMessage {
    pub platform: String,
    pub chat_id: String,
    pub user_id: String,
    pub text: String,
    pub attachments: Vec<Attachment>,
    pub reply_to_message_id: Option<String>,
}

/// An attachment as a platform delivers it.
#[derive(Debug)]
pub struct Attachment {
    pub url: String,
    pub mime_type: String,
    pub filename: Option<String>,
}

/// A message to send to a platform.
#[derive(Debug)]
pub struct OutboundMessage {
    pub platform: String,
    pub chat_id: String,
    pub text: String,
    pub is_streaming: bool,
    pub metadata: Option<JsonValue>,
}

/// A routing failure.
#[derive(Debug)]
pub enum RouterError {
    AgentBridgeError(String),
    SessionError(String),
    StreamError(String),
}

/// The text of a routing failure.
pub open spec fn router_error_msg(e: RouterError) -> Seq<char> {
    match e {
        RouterError::AgentBridgeError(m) => "Agent bridge error: "@ + m@,
        RouterError::SessionError(m) => "Session error: "@ + m@,
        RouterError::StreamError(m) => "Stream error: "@ + m@,
    }
}

impl RouterError {
    /// The text of this failure.
    pub fn message(&self) -> (r: String)
        ensures
            r@ == router_error_msg(*self),
    {
        match self {
            RouterError::AgentBridgeError(m) => join_str("Agent bridge error: ", m.as_str()),
            RouterError::SessionError(m) => join_str("Session error: ", m.as_str()),
            RouterError::StreamError(m) => join_str("Stream error: ", m.as_str()),
        }
    }

    /// A failure of the agent bridge, carrying its text.
    pub fn from_bridge(e: GatewayError) -> (r: RouterError)
        ensures
            match (e, r) {
                (GatewayError::Platform(m), RouterError::AgentBridgeError(n)) => n@ == m@,
                _ => false,
            },
    {
        match e {
            GatewayError::Platform(m) => RouterError::AgentBridgeError(m),
        }
    }
}

/// The session of a chat on a platform: "<platform>_<chat_id>".
pub open spec fn session_key(platform: Seq<char>, chat_id: Seq<char>) -> Seq<char> {
    platform + "_"@ + chat_id
}

/// The session id of a chat on a platform.
pub fn session_id_for(platform: &str, chat_id: &str) -> (r: String)
    ensures
        r@ == session_key(platform@, chat_id@),
{
    let mut s = String::from_str(platform);
    s.append("_");
    s.append(chat_id);
    s
}

/// The kind of attachment a MIME type names: "image", "audio" or "video" by
/// its prefix, "document" otherwise.
pub open spec fn mime_kind(mime: Seq<char>) -> Seq<char> {
    if is_prefix("image/"@, mime) {
        "image"@
    } else if is_prefix("audio/"@, mime) {
        "audio"@
    } else if is_prefix("video/"@, mime) {
        "video"@
    } else {
        "document"@
    }
}

/// The kind of attachment a MIME type names.
pub fn attachment_kind(mime: &str) -> (r: &'static str)
    ensures
        r@ == mime_kind(mime@),
{
    if starts_with(mime, "image/") {
        "image"
    } else if starts_with(mime, "audio/") {
        "audio"
    } else if starts_with(mime, "video/") {
        "video"
    } else {
        "document"
    }
}

/// The agent's form of a platform attachment: its kind and URL, no caption.
pub open spec fn converted(a: Attachment, m: MessageAttachment) -> bool {
    &&& m.attachment_type@ == mime_kind(a.mime_type@)
    &&& m.url@ == a.url@
    &&& m.caption is None
}

/// Converts attachments for the agent, in order.
pub fn convert_attachments(items: &Vec<Attachment>) -> (r: Vec<MessageAttachment>)
    ensures
        r@.len() == items@.len(),
        forall|i: int| 0 <= i < items@.len() ==> converted(items@[i], #[trigger] r@[i]),
{
    let mut out: Vec<MessageAttachment> = Vec::new();
    let mut i: usize = 0;
    while i < items.len()
        invariant
            i <= items@.len(),
            out@.len() == i,
            forall|j: int| 0 <= j < i ==> converted(items@[j], #[trigger] out@[j]),
        decreases items@.len() - i,
    {
        let kind = attachment_kind(items[i].mime_type.as_str());
        out.push(MessageAttachment { attachment_type: String::from_str(kind), url: items[i].url.clone(), caption: None });
        i = i + 1;
    }
    out
}

/// A `start_session` request to make of the agent.
#[derive(Debug)]
pub struct StartSessionCall {
    pub session_id: String,
    pub platform: String,
    pub chat_id: String,
    pub user_id: String,
    pub config: crate::agent_bridge::types::SessionConfig,
}

/// A `handle_message` request to make of the agent.
#[derive(Debug)]
pub struct HandleMessageCall {
    pub session_id: String,
    pub text: String,
    pub attachments: Vec<MessageAttachment>,
    pub reply_to_message_id: Option<String>,
}

/// An `interrupt` request to make of the agent.
#[derive(Debug)]
pub struct InterruptCall {
    pub session_id: String,
    pub reason: String,
}

/// What routing an inbound message asks, in order: start the agent session
/// when the gateway had none, then hand the agent the message.
#[derive(Debug)]
pub struct InboundPlan {
    pub session_id: String,
    pub start_session: Option<StartSessionCall>,
    pub handle_message: HandleMessageCall,
}

/// The agent configuration of a new session: the router's model `model`,
/// at most 90 turns, no toolsets, no personality, no budget.
pub open spec fn default_agent_config(c: crate::agent_bridge::types::SessionConfig, model: Seq<char>) -> bool {
    &&& opt_str_view(c.model) == Some(model)
    &&& c.max_turns == Some(90u32)
    &&& c.toolsets@.len() == 0
    &&& c.personality is None
    &&& c.budget is None
}

/// The gateway's record of a new session opened by `msg`.
pub open spec fn new_session_config(msg: InboundMessage) -> SessionConfigView {
    SessionConfigView {
        platform: msg.platform@,
        chat_id: msg.chat_id@,
        user_id: msg.user_id@,
        model: None,
        max_turns: None,
        toolsets: None,
    }
}

/// `plan` is what routing `msg` asks when the gateway `had` the session or
/// not, with `model` for new agent sessions.
pub open spec fn inbound_plan_for(msg: InboundMessage, had: bool, model: Seq<char>, plan: InboundPlan) -> bool {
    let sid = session_key(msg.platform@, msg.chat_id@);
    &&& plan.session_id@ == sid
    &&& (plan.start_session is Some <==> !had)
    &&& (plan.start_session matches Some(c) ==> {
        &&& c.session_id@ == sid
        &&& c.platform@ == msg.platform@
        &&& c.chat_id@ == msg.chat_id@
        &&& c.user_id@ == msg.user_id@
        &&& default_agent_config(c.config, model)
    })
    &&& plan.handle_message.session_id@ == sid
    &&& plan.handle_message.text@ == msg.text@
    &&& plan.handle_message.attachments@.len() == msg.attachments@.len()
    &&& forall|i: int|
        0 <= i < msg.attachments@.len() ==> converted(
            msg.attachments@[i],
            #[trigger] plan.handle_message.attachments@[i],
        )
    &&& opt_str_view(plan.handle_message.reply_to_message_id) == opt_str_view(msg.reply_to_message_id)
}


/// Routing `msg` as `plan`: the plan is what the message asks given whether
/// its session was open; afterwards the session is open and stored under
/// its id, opened from `msg` when it was new; other sessions stay.
pub open spec fn route_effect(pre: Router, post: Router, msg: InboundMessage, plan: InboundPlan) -> bool {
    let sid = plan.session_id@;
    &&& inbound_plan_for(
        msg,
        pre.sessions().contains_key(session_key(msg.platform@, msg.chat_id@)),
        pre.agent_model(),
        plan,
    )
    &&& post.agent_model() == pre.agent_model()
    &&& post.sessions().dom() == pre.sessions().dom().insert(sid)
    &&& post.sessions()[sid].session_id == sid
    &&& !pre.sessions().contains_key(sid) ==> post.sessions()[sid].config == new_session_config(msg)
    &&& !pre.sessions().contains_key(sid) ==> post.sessions()[sid].created_at == post.sessions()[sid].last_activity
    &&& forall|k: Seq<char>| #[trigger] pre.sessions().contains_key(k) ==> post.sessions()[k] == pre.sessions()[k]
}

/// Ending session `k` after the agent agreed: the session is gone.
pub open spec fn end_effect(pre: Router, post: Router, k: Seq<char>) -> bool {
    post.sessions() == pre.sessions().remove(k)
}

/// The gateway side of routing: its sessions and stream handling.
pub struct Router {
    session_manager: SessionManager,
    stream_manager: StreamManager,
    agent_model: String,
}

impl Router {
    /// The open sessions.
    pub closed spec fn sessions(self) -> Map<Seq<char>, SessionView> {
        self.session_manager.sessions()
    }

    /// The model every new agent session is started with.
    pub closed spec fn agent_model(self) -> Seq<char> {
        self.agent_model@
    }

    /// A router with no sessions that starts every agent session with the
    /// model `agent_model`.
    pub fn new(agent_model: String) -> (r: Router)
        ensures
            r.sessions() == Map::<Seq<char>, SessionView>::empty(),
            r.agent_model() == agent_model@,
    {
        Router { session_manager: SessionManager::new(), stream_manager: StreamManager::new(), agent_model }
    }

    /// The session manager.
    pub fn session_manager(&self) -> (r: &SessionManager)
        ensures
            r.sessions() == self.sessions(),
    {
        &self.session_manager
    }

    /// The stream manager.
    pub fn stream_manager(&self) -> &StreamManager {
        &self.stream_manager
    }

    /// Routes `msg` at time `now`: opens its session in the gateway when
    /// there is none, and says what to ask of the agent.
    pub fn route_inbound_at(&mut self, msg: InboundMessage, now: Timestamp) -> (plan: InboundPlan)
        ensures
            inbound_plan_for(
                msg,
                old(self).sessions().contains_key(session_key(msg.platform@, msg.chat_id@)),
                old(self).agent_model(),
                plan,
            ),
            final(self).agent_model() == old(self).agent_model(),
            final(self).sessions()[plan.session_id@].session_id == plan.session_id@,
            old(self).sessions().contains_key(plan.session_id@) ==> final(self).sessions() == old(self).sessions(),
            !old(self).sessions().contains_key(plan.session_id@) ==> final(self).sessions() == old(self).sessions().insert(
                plan.session_id@,
                SessionView {
                    session_id: plan.session_id@,
                    config: new_session_config(msg),
                    created_at: now,
                    last_activity: now,
                },
            ),
            plan.session_id@ == msg.platform@ + "_"@ + msg.chat_id@,
            !old(self).sessions().contains_key(plan.session_id@) ==> {
                let rec = final(self).sessions()[msg.platform@ + "_"@ + msg.chat_id@];
                &&& rec.config.platform == msg.platform@
                &&& rec.config.chat_id == msg.chat_id@
                &&& rec.config.user_id == msg.user_id@
                &&& rec.config.model is None
                &&& rec.config.max_turns is None
                &&& rec.config.toolsets is None
                &&& rec.created_at == now
                &&& rec.last_activity == now
            },
    {
        let session_id = session_id_for(msg.platform.as_str(), msg.chat_id.as_str());
        let start_session = if !self.session_manager.has_session(session_id.as_str()) {
            let config = SessionConfig {
                platform: msg.platform.clone(),
                chat_id: msg.chat_id.clone(),
                user_id: msg.user_id.clone(),
                model: None,
                max_turns: None,
                toolsets: None,
            };
            self.session_manager.create_session_at(session_id.as_str(), config, now);
            let agent_config = crate::agent_bridge::types::SessionConfig {
                model: Some(self.agent_model.clone()),
                max_turns: Some(90),
                toolsets: Vec::new(),
                personality: None,
                budget: None,
            };
            Some(
                StartSessionCall {
                    session_id: session_id.clone(),
                    platform: msg.platform.clone(),
                    chat_id: msg.chat_id.clone(),
                    user_id: msg.user_id.clone(),
                    config: agent_config,
                },
            )
        } else {
            None
        };
        let attachments = convert_attachments(&msg.attachments);
        let handle_message = HandleMessageCall {
            session_id: session_id.clone(),
            text: msg.text,
            attachments,
            reply_to_message_id: msg.reply_to_message_id,
        };
        InboundPlan { session_id, start_session, handle_message }
    }

    /// Routes `msg` now: opens its session in the gateway when there is none,
    /// and says what to ask of the agent.
    pub fn route_inbound(&mut self, msg: InboundMessage) -> (plan: InboundPlan)
        ensures
            route_effect(*old(self), *final(self), msg, plan),
    {
        let t = now();
        let ghost had = self.sessions().contains_key(session_key(msg.platform@, msg.chat_id@));
        let plan = self.route_inbound_at(msg, t);
        proof {
            if had {
                assert(self.sessions().dom() =~= old(self).sessions().dom().insert(plan.session_id@));
            } else {
                assert(self.sessions().dom() =~= old(self).sessions().dom().insert(plan.session_id@));
            }
        }
        plan
    }

    /// What interrupting a session asks of the agent: an `interrupt` with
    /// reason "user_requested".
    pub fn interrupt_session(&self, session_id: &str) -> (r: InterruptCall)
        ensures
            r.session_id@ == session_id@,
            r.reason@ == "user_requested"@,
    {
        InterruptCall { session_id: String::from_str(session_id), reason: String::from_str("user_requested") }
    }

    /// Ends a session once the agent answered `end_session` with
    /// `agent_result`: on success the gateway forgets the session; on failure
    /// it keeps it and reports the agent's failure.
    pub fn end_session(&mut self, session_id: &str, agent_result: Result<(), GatewayError>) -> (r: Result<(), RouterError>)
        ensures
            match agent_result {
                Ok(_) => r is Ok && end_effect(*old(self), *final(self), session_id@),
                Err(GatewayError::Platform(m)) => r matches Err(RouterError::AgentBridgeError(n)) && n@ == m@
                    && final(self).sessions() == old(self).sessions(),
            },
    {
        match agent_result {
            Ok(_) => {
                self.session_manager.remove_session(session_id);
                Ok(())
            },
            Err(e) => Err(RouterError::from_bridge(e)),
        }
    }
}

/// The next step of routing once the agent answered `start_session`: on
/// success, hand it the message `handle`; on failure, routing stops with the
/// agent's failure and the message is not handed over.
pub fn after_start_session(
    handle: HandleMessageCall,
    started: Result<StartSessionResponse, GatewayError>,
) -> (r: Result<HandleMessageCall, RouterError>)
    ensures
        match started {
            Ok(_) => r == Ok::<HandleMessageCall, RouterError>(handle),
            Err(GatewayError::Platform(m)) => r matches Err(RouterError::AgentBridgeError(n)) && n@ == m@,
        },
{
    match started {
        Ok(_) => Ok(handle),
        Err(e) => Err(RouterError::from_bridge(e)),
    }
}

/// The outcome of routing once the agent answered `handle_message`: success,
/// or the agent's failure.
pub fn after_handle_message(handled: Result<HandleMessageResponse, GatewayError>) -> (r: Result<(), RouterError>)
    ensures
        match handled {
            Ok(_) => r is Ok,
            Err(GatewayError::Platform(m)) => r matches Err(RouterError::AgentBridgeError(n)) && n@ == m@,
        },
{
    match handled {
        Ok(_) => Ok(()),
        Err(e) => Err(RouterError::from_bridge(e)),
    }
}

// ---------------------------------------------------------------------------
// Laws
// ---------------------------------------------------------------------------

/// A chat's agent session is started once: a second message from the same
/// chat goes to the same session, asks for no new agent session, and leaves
/// the session's record as it was.
pub proof fn law_session_started_once(
    r0: Router,
    r1: Router,
    r2: Router,
    m1: InboundMessage,
    m2: InboundMessage,
    p1: InboundPlan,
    p2: InboundPlan,
)
    requires
        route_effect(r0, r1, m1, p1),
        route_effect(r1, r2, m2, p2),
        m2.platform@ == m1.platform@,
        m2.chat_id@ == m1.chat_id@,
    ensures
        p2.session_id@ == p1.session_id@,
        p2.start_session is None,
        r2.sessions()[p1.session_id@] == r1.sessions()[p1.session_id@],
{
    assert(r1.sessions().contains_key(p1.session_id@));
}

/// A session opened by routing a message records where the message came
/// from: its key is "<platform>_<chat_id>", and its configuration holds the
/// message's platform, chat and user, with no model, turn limit or toolsets,
/// opened and last active at the same time. The agent is asked to start it
/// for the message's own platform, chat and user, and is handed the
/// message's text and reply target.
pub proof fn law_new_session_records_message(r0: Router, r1: Router, msg: InboundMessage, plan: InboundPlan)
    requires
        route_effect(r0, r1, msg, plan),
        !r0.sessions().contains_key(msg.platform@ + "_"@ + msg.chat_id@),
    ensures
        plan.session_id@ == msg.platform@ + "_"@ + msg.chat_id@,
        r1.sessions().contains_key(msg.platform@ + "_"@ + msg.chat_id@),
        ({
            let rec = r1.sessions()[msg.platform@ + "_"@ + msg.chat_id@];
            &&& rec.session_id == msg.platform@ + "_"@ + msg.chat_id@
            &&& rec.config.platform == msg.platform@
            &&& rec.config.chat_id == msg.chat_id@
            &&& rec.config.user_id == msg.user_id@
            &&& rec.config.model is None
            &&& rec.config.max_turns is None
            &&& rec.config.toolsets is None
            &&& rec.created_at == rec.last_activity
        }),
        plan.start_session matches Some(c) && {
            &&& c.session_id@ == msg.platform@ + "_"@ + msg.chat_id@
            &&& c.platform@ == msg.platform@
            &&& c.chat_id@ == msg.chat_id@
            &&& c.user_id@ == msg.user_id@
            &&& c.config.model matches Some(m) && m@ == r0.agent_model()
            &&& c.config.max_turns == Some(90u32)
        },
        plan.handle_message.session_id@ == msg.platform@ + "_"@ + msg.chat_id@,
        plan.handle_message.text@ == msg.text@,
        plan.handle_message.attachments@.len() == msg.attachments@.len(),
        opt_str_view(plan.handle_message.reply_to_message_id) == opt_str_view(msg.reply_to_message_id),
{
}

/// Routing a message from a chat whose session is open changes no session
/// and asks for no new agent session; the message goes to that session.
pub proof fn law_known_chat_keeps_sessions(r0: Router, r1: Router, msg: InboundMessage, plan: InboundPlan)
    requires
        route_effect(r0, r1, msg, plan),
        r0.sessions().contains_key(msg.platform@ + "_"@ + msg.chat_id@),
    ensures
        plan.start_session is None,
        r1.sessions() == r0.sessions(),
        plan.handle_message.session_id@ == msg.platform@ + "_"@ + msg.chat_id@,
        plan.handle_message.text@ == msg.text@,
{
    assert(r1.sessions() =~= r0.sessions());
}

/// Attachments reach the agent in order, each with its URL, no caption, and
/// the kind its MIME type names: "image/…" is an image, "audio/…" audio,
/// "video/…" video, anything else a document.
pub proof fn law_attachment_kinds(a: Attachment, m: MessageAttachment)
    requires
        converted(a, m),
    ensures
        m.url@ == a.url@,
        m.caption is None,
        is_prefix("image/"@, a.mime_type@) ==> m.attachment_type@ == "image"@,
        !is_prefix("image/"@, a.mime_type@) && is_prefix("audio/"@, a.mime_type@) ==> m.attachment_type@ == "audio"@,
        !is_prefix("image/"@, a.mime_type@) && !is_prefix("audio/"@, a.mime_type@) && is_prefix("video/"@, a.mime_type@)
            ==> m.attachment_type@ == "video"@,
        !is_prefix("image/"@, a.mime_type@) && !is_prefix("audio/"@, a.mime_type@) && !is_prefix("video/"@, a.mime_type@)
            ==> m.attachment_type@ == "document"@,
{
}

/// After routing, the message's session is open; after ending it, it is not.
pub proof fn law_end_after_route(r0: Router, r1: Router, r2: Router, m: InboundMessage, p: InboundPlan)
    requires
        route_effect(r0, r1, m, p),
        end_effect(r1, r2, p.session_id@),
    ensures
        r1.sessions().contains_key(session_key(m.platform@, m.chat_id@)),
        !r2.sessions().contains_key(session_key(m.platform@, m.chat_id@)),
{
}

} // verus!
