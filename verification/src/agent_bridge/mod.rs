//! The agent bridge: request bookkeeping, reply matching and notification
//! routing for the JSON-RPC conversation with the agent process.
//!
//! The process itself, its pipes and the waiting are the caller's; this type
//! holds the state that decides what each step does.

pub mod protocol;
pub mod types;

use vstd::prelude::*;
use vstd::string::*;
use std::collections::HashMap;
use crate::error::GatewayError;
use crate::json::{JsonValue, JsonView, json_parse, parse_json_text, push_field, make_object,
    fields_view, json_string, jstr, jopt_str, json_opt_str};
use crate::agent_bridge::protocol::{JsonRpcRequest, JsonRpcResponse, JsonRpcNotification, RequestView,
    ResponseView, request_spec, response_decode, notification_decode};
use crate::table::{keys_unique, table_map, table_insert, table_remove, table_get};
use crate::text::{trim_end, trim_end_str, join_str, i64_to_decimal, u64_to_decimal, signed_decimal, decimal};
use crate::agent_bridge::types::{SessionConfig, MessageAttachment, AgentNotification, StartSessionResponse,
    EndSessionResponse, HandleMessageResponse, PingResponse, attachments_json, attachments_to_json,
    from_rpc_error, opt_str_view};

verus! {

/// `tokio::sync::oneshot::Sender`, carried opaquely.
#[verifier::external_type_specification]
#[verifier::external_body]
#[verifier::reject_recursive_types(T)]
pub struct ExOneshotSender<T>(tokio::sync::oneshot::Sender<T>);

/// `tokio::sync::mpsc::UnboundedSender`, carried opaquely.
#[verifier::external_type_specification]
#[verifier::external_body]
#[verifier::reject_recursive_types(T)]
pub struct ExUnboundedSender<T>(tokio::sync::mpsc::UnboundedSender<T>);

/// How the agent process is started and supervised.
#[derive(Debug)]
pub struct BridgeConfig {
    /// Path to the Python executable.
    pub python_path: String,
    /// Python module that runs the agent.
    pub agent_module: String,
    /// Working directory of the agent process.
    pub working_dir: Option<String>,
    /// Environment variables passed to the agent.
    pub env_vars: HashMap<String, String>,
    /// Heartbeat interval in seconds.
    pub heartbeat_interval_secs: u64,
    /// Request timeout in seconds.
    pub request_timeout_secs: u64,
    /// Restart the agent when it crashes.
    pub auto_restart: bool,
    /// How many restarts to attempt.
    pub max_restart_attempts: u32,
}

impl Default for BridgeConfig {
    fn default() -> (r: BridgeConfig)
        ensures
            r.python_path@ == "python3"@,
            r.agent_module@ == "hermes_cli.agent_bridge"@,
            r.working_dir is None,
            r.env_vars@ == Map::<String, String>::empty(),
            r.heartbeat_interval_secs == 30,
            r.request_timeout_secs == 300,
            r.auto_restart,
            r.max_restart_attempts == 3,
    {
        BridgeConfig {
            python_path: String::from_str("python3"),
            agent_module: String::from_str("hermes_cli.agent_bridge"),
            working_dir: None,
            env_vars: HashMap::new(),
            heartbeat_interval_secs: 30,
            request_timeout_secs: 300,
            auto_restart: true,
            max_restart_attempts: 3,
        }
    }
}

impl BridgeConfig {
    /// The arguments of the agent command: `-m <agent_module>`.
    pub fn agent_args(&self) -> (r: Vec<String>)
        ensures
            r@.len() == 2,
            r@[0]@ == "-m"@,
            r@[1]@ == self.agent_module@,
    {
        let mut v: Vec<String> = Vec::new();
        v.push(String::from_str("-m"));
        v.push(self.agent_module.clone());
        v
    }
}

/// What happened while waiting for a reply.
pub enum ReplyOutcome {
    /// The reply arrived.
    Received(JsonRpcResponse),
    /// The reply channel was dropped without a reply.
    ChannelClosed,
    /// The request timeout elapsed first.
    TimedOut,
}

/// What a line read from the agent calls for.
pub enum AgentLine {
    /// A reply to a pending request: hand `response` to `reply`.
    Reply { reply: tokio::sync::oneshot::Sender<JsonRpcResponse>, response: JsonRpcResponse },
    /// A reply whose id matches no pending request.
    UnknownResponse { id: u64 },
    /// A notification for a subscribed session: send it to that subscriber.
    Deliver { session_id: String, notification: AgentNotification },
    /// A notification for a session nobody listens to.
    NoSubscriber { session_id: String, notification: AgentNotification },
    /// A notification that does not decode.
    Rejected(GatewayError),
    /// Neither a reply nor a notification.
    Unparsed,
}


/// Subscribing `k` with sender `tx`: notifications for the session now go
/// to `tx`, replacing an earlier subscriber; every other subscription and the
/// rest of the state stay.
pub open spec fn subscribe_effect(
    pre: AgentBridge,
    post: AgentBridge,
    k: Seq<char>,
    tx: tokio::sync::mpsc::UnboundedSender<AgentNotification>,
) -> bool {
    &&& post.subscriber_map() == pre.subscriber_map().insert(k, tx)
    &&& post.is_running() == pre.is_running()
    &&& post.next_request_id() == pre.next_request_id()
    &&& post.pending_map() == pre.pending_map()
    &&& post.spec_config() == pre.spec_config()
}

/// Unsubscribing `k`: its subscription is gone; the rest stays.
pub open spec fn unsubscribe_effect(pre: AgentBridge, post: AgentBridge, k: Seq<char>) -> bool {
    &&& post.subscriber_map() == pre.subscriber_map().remove(k)
    &&& post.is_running() == pre.is_running()
    &&& post.next_request_id() == pre.next_request_id()
    &&& post.pending_map() == pre.pending_map()
    &&& post.spec_config() == pre.spec_config()
}

/// Preparing request `req` on a running bridge, its reply to go to
/// `reply_to`: it takes the next id, which was not pending and now is, with
/// `reply_to` as its reply sender; the next id moves on by one; the replies
/// awaited before are still awaited by the same senders.
pub open spec fn request_prepared(
    pre: AgentBridge,
    post: AgentBridge,
    req: RequestView,
    reply_to: tokio::sync::oneshot::Sender<JsonRpcResponse>,
) -> bool {
    &&& pre.is_running()
    &&& req.id == pre.next_request_id()
    &&& !pre.pending_ids().contains(req.id)
    &&& post.next_request_id() == pre.next_request_id() + 1
    &&& post.pending_map() == pre.pending_map().insert(req.id, reply_to)
    &&& post.is_running() == pre.is_running()
    &&& post.subscriber_map() == pre.subscriber_map()
    &&& post.spec_config() == pre.spec_config()
}

/// The bridge's bookkeeping: whether the agent runs, the next request id,
/// the requests awaiting a reply and the sessions subscribed to notifications.
pub struct AgentBridge {
    running: bool,
    pending: HashMap<u64, tokio::sync::oneshot::Sender<JsonRpcResponse>>,
    next_id: u64,
    subscribers: Vec<(String, tokio::sync::mpsc::UnboundedSender<AgentNotification>)>,
    config: BridgeConfig,
}

impl AgentBridge {
    /// Every pending id is below the next id; subscriber keys are distinct.
    #[verifier::type_invariant]
    spec fn inv(self) -> bool {
        &&& self.next_id >= 1
        &&& forall|id: u64| #[trigger] self.pending@.contains_key(id) ==> id < self.next_id
        &&& keys_unique(self.subscribers@)
    }

    /// Whether the agent process is running.
    pub closed spec fn is_running(self) -> bool {
        self.running
    }

    /// The id the next request gets.
    pub closed spec fn next_request_id(self) -> u64 {
        self.next_id
    }

    /// Ids of the requests awaiting a reply.
    pub closed spec fn pending_ids(self) -> Set<u64> {
        self.pending@.dom()
    }

    /// The reply sender of each pending request.
    pub closed spec fn pending_map(self) -> Map<u64, tokio::sync::oneshot::Sender<JsonRpcResponse>> {
        self.pending@
    }

    /// The notification sender of each subscribed session.
    pub closed spec fn subscriber_map(self) -> Map<
        Seq<char>,
        tokio::sync::mpsc::UnboundedSender<AgentNotification>,
    > {
        table_map(self.subscribers@)
    }

    /// The configuration.
    pub closed spec fn spec_config(self) -> BridgeConfig {
        self.config
    }

    /// The state right after construction: not running, next id 1, nothing
    /// pending, nobody subscribed.
    pub fn new(config: BridgeConfig) -> (r: AgentBridge)
        ensures
            !r.is_running(),
            r.next_request_id() == 1,
            r.pending_ids() == Set::<u64>::empty(),
            r.subscriber_map() == Map::<Seq<char>, tokio::sync::mpsc::UnboundedSender<AgentNotification>>::empty(),
            r.spec_config() == config,
    {
        let r = AgentBridge {
            running: false,
            pending: HashMap::new(),
            next_id: 1,
            subscribers: Vec::new(),
            config,
        };
        assert(r.pending@.dom() =~= Set::<u64>::empty());
        r
    }

    /// The configuration.
    pub fn config(&self) -> (r: &BridgeConfig)
        ensures
            *r == self.spec_config(),
    {
        &self.config
    }

    /// Whether the agent process is running.
    pub fn running(&self) -> (r: bool)
        ensures
            r == self.is_running(),
    {
        self.running
    }

    /// The id the next request gets.
    pub fn next_id(&self) -> (r: u64)
        ensures
            r == self.next_request_id(),
    {
        self.next_id
    }

    /// Whether request `id` awaits a reply.
    pub fn is_pending(&self, id: u64) -> (r: bool)
        ensures
            r == self.pending_ids().contains(id),
    {
        self.pending.contains_key(&id)
    }

    /// Whether `session_id` is subscribed.
    pub fn is_subscribed(&self, session_id: &str) -> (r: bool)
        ensures
            r == self.subscriber_map().contains_key(session_id@),
    {
        proof {
            use_type_invariant(self);
        }
        match table_get(&self.subscribers, session_id) {
            Some(_) => true,
            None => false,
        }
    }

    /// Starting: `true` when the agent must be spawned, `false` when it
    /// already runs (starting again does nothing). The state is unchanged;
    /// [`AgentBridge::mark_started`] records a successful spawn.
    pub fn start(&self) -> (spawn: bool)
        ensures
            spawn == !self.is_running(),
    {
        !self.running
    }

    /// Records that the agent process runs.
    pub fn mark_started(&mut self)
        ensures
            final(self).is_running(),
            final(self).next_request_id() == old(self).next_request_id(),
            final(self).pending_map() == old(self).pending_map(),
            final(self).subscriber_map() == old(self).subscriber_map(),
            final(self).spec_config() == old(self).spec_config(),
    {
        proof {
            use_type_invariant(&*self);
        }
        self.running = true;
    }

    /// Stopping: records that the agent no longer runs and says whether it
    /// ran (only then is there a process to shut down). Also used when the
    /// agent's output ends.
    pub fn stop(&mut self) -> (was_running: bool)
        ensures
            was_running == old(self).is_running(),
            !final(self).is_running(),
            final(self).next_request_id() == old(self).next_request_id(),
            final(self).pending_map() == old(self).pending_map(),
            final(self).subscriber_map() == old(self).subscriber_map(),
            final(self).spec_config() == old(self).spec_config(),
    {
        proof {
            use_type_invariant(&*self);
        }
        let was = self.running;
        self.running = false;
        was
    }

    /// Subscribes `session_id` to notifications: they go to `tx` from now
    /// on, replacing an earlier subscription of the same session.
    pub fn subscribe(&mut self, session_id: String, tx: tokio::sync::mpsc::UnboundedSender<AgentNotification>)
        ensures
            subscribe_effect(*old(self), *final(self), session_id@, tx),
    {
        proof {
            use_type_invariant(&*self);
        }
        let mut subs = Vec::new();
        std::mem::swap(&mut subs, &mut self.subscribers);
        table_insert(&mut subs, session_id, tx);
        self.subscribers = subs;
    }

    /// Removes the subscription of `session_id`, if any.
    pub fn unsubscribe(&mut self, session_id: &str)
        ensures
            unsubscribe_effect(*old(self), *final(self), session_id@),
    {
        proof {
            use_type_invariant(&*self);
        }
        let mut subs = Vec::new();
        std::mem::swap(&mut subs, &mut self.subscribers);
        table_remove(&mut subs, session_id);
        self.subscribers = subs;
    }

    /// The notification sender of `session_id`.
    pub fn subscriber(&self, session_id: &str) -> (r: Option<&tokio::sync::mpsc::UnboundedSender<AgentNotification>>)
        ensures
            match r {
                Some(tx) => self.subscriber_map().contains_key(session_id@) && self.subscriber_map()[session_id@] == *tx,
                None => !self.subscriber_map().contains_key(session_id@),
            },
    {
        proof {
            use_type_invariant(self);
        }
        table_get(&self.subscribers, session_id)
    }
}

/// Parameters of `start_session`.
pub open spec fn start_session_params(
    session_id: Seq<char>,
    platform: Seq<char>,
    chat_id: Seq<char>,
    user_id: Seq<char>,
    config: JsonView,
) -> JsonView {
    JsonView::Object(
        seq![
            ("session_id"@, jstr(session_id)),
            ("platform"@, jstr(platform)),
            ("chat_id"@, jstr(chat_id)),
            ("user_id"@, jstr(user_id)),
            ("config"@, config),
        ],
    )
}

/// Parameters of `handle_message`.
pub open spec fn handle_message_params(
    session_id: Seq<char>,
    text: Seq<char>,
    attachments: JsonView,
    reply_to_message_id: Option<Seq<char>>,
) -> JsonView {
    JsonView::Object(
        seq![
            ("session_id"@, jstr(session_id)),
            ("text"@, jstr(text)),
            ("attachments"@, attachments),
            ("reply_to_message_id"@, jopt_str(reply_to_message_id)),
        ],
    )
}

/// Parameters of `interrupt`.
pub open spec fn interrupt_params(session_id: Seq<char>, reason: Seq<char>) -> JsonView {
    JsonView::Object(seq![("session_id"@, jstr(session_id)), ("reason"@, jstr(reason))])
}

/// Parameters of `end_session`.
pub open spec fn end_session_params(session_id: Seq<char>) -> JsonView {
    JsonView::Object(seq![("session_id"@, jstr(session_id))])
}

/// Parameters of `ping`: an empty object.
pub open spec fn ping_params() -> JsonView {
    JsonView::Object(Seq::empty())
}

/// The message of a reply that carries an error.
pub open spec fn agent_error_msg(code: i64, message: Seq<char>) -> Seq<char> {
    "Agent error "@ + signed_decimal(code as int) + ": "@ + message
}

/// The message of a request that timed out.
pub open spec fn timeout_msg(secs: u64, method: Seq<char>) -> Seq<char> {
    "Agent request timed out after "@ + decimal(secs as nat) + "s: "@ + method
}

/// The result a reply delivers: its error as a failure, else its result,
/// else the failure that the result is missing.
pub open spec fn reply_result(resp: ResponseView) -> Result<JsonView, Seq<char>> {
    match resp.error {
        Some(e) => Err(agent_error_msg(e.code, e.message)),
        None => match resp.result {
            Some(v) => Ok(v),
            None => Err("Agent response missing result"@),
        },
    }
}

/// The outcome of decoding a reply's result: the failure passes through;
/// a result that does not decode fails with "Invalid <method> response: <why>".
pub open spec fn decode_outcome(
    result: Result<JsonValue, GatewayError>,
    method: Seq<char>,
    why: spec_fn(JsonView) -> Option<Seq<char>>,
    r_err: Option<Seq<char>>,
) -> bool {
    match result {
        Err(GatewayError::Platform(m)) => r_err == Some(m@),
        Ok(v) => match why(v@) {
            Some(e) => r_err == Some("Invalid "@ + method + " response: "@ + e),
            None => r_err is None,
        },
    }
}

/// The message of a failure, if any.
pub open spec fn failure_of<T>(r: Result<T, GatewayError>) -> Option<Seq<char>> {
    match r {
        Ok(_) => None,
        Err(GatewayError::Platform(m)) => Some(m@),
    }
}

fn invalid_response(method: &str, why: String) -> (r: GatewayError)
    ensures
        match r {
            GatewayError::Platform(m) => m@ == "Invalid "@ + method@ + " response: "@ + why@,
        },
{
    let mut m = String::from_str("Invalid ");
    m.append(method);
    m.append(" response: ");
    m.append(why.as_str());
    GatewayError::Platform(m)
}

impl AgentBridge {
    /// Prepares a request whose reply is to go to `reply_to`: fails when the
    /// agent is not running (dropping `reply_to`); otherwise takes the next
    /// id, registers `reply_to` as the pending reply of that id and returns
    /// the request to write.
    pub fn send_request(
        &mut self,
        method: &str,
        params: JsonValue,
        reply_to: tokio::sync::oneshot::Sender<JsonRpcResponse>,
    ) -> (r: Result<JsonRpcRequest, GatewayError>)
        requires
            old(self).is_running() ==> old(self).next_request_id() < u64::MAX,
        ensures
            !old(self).is_running() ==> {
                &&& failure_of(r) == Some("Agent subprocess not running"@)
                &&& same_state(*old(self), *final(self))
            },
            old(self).is_running() ==> (r matches Ok(req) && req@ == request_spec(
                method@,
                params@,
                old(self).next_request_id(),
            ) && request_prepared(*old(self), *final(self), req@, reply_to)),
    {
        proof {
            use_type_invariant(&*self);
        }
        if !self.running {
            return Err(GatewayError::Platform(String::from_str("Agent subprocess not running")));
        }
        let id = self.next_id;
        self.next_id = self.next_id + 1;
        let mut pending = HashMap::new();
        std::mem::swap(&mut pending, &mut self.pending);
        pending.insert(id, reply_to);
        self.pending = pending;
        assert(self.pending@.dom() =~= old(self).pending@.dom().insert(id));
        Ok(JsonRpcRequest::new(method, params, id))
    }

    /// Decides the result of request `id` for `method` from what happened
    /// while waiting. A timeout withdraws the request from the pending ones.
    pub fn finish_request(&mut self, id: u64, method: &str, outcome: ReplyOutcome) -> (r: Result<JsonValue, GatewayError>)
        ensures
            match outcome {
                ReplyOutcome::Received(resp) => {
                    &&& match reply_result(resp@) {
                        Ok(v) => r matches Ok(x) && x@ == v,
                        Err(m) => failure_of(r) == Some(m),
                    }
                    &&& final(self).pending_map() == old(self).pending_map()
                },
                ReplyOutcome::ChannelClosed => {
                    &&& failure_of(r) == Some("Agent response channel closed"@)
                    &&& final(self).pending_map() == old(self).pending_map()
                },
                ReplyOutcome::TimedOut => {
                    &&& failure_of(r) == Some(
                        timeout_msg(old(self).spec_config().request_timeout_secs, method@),
                    )
                    &&& final(self).pending_map() == old(self).pending_map().remove(id)
                },
            },
            final(self).is_running() == old(self).is_running(),
            final(self).next_request_id() == old(self).next_request_id(),
            final(self).subscriber_map() == old(self).subscriber_map(),
            final(self).spec_config() == old(self).spec_config(),
    {
        proof {
            use_type_invariant(&*self);
        }
        match outcome {
            ReplyOutcome::Received(resp) => {
                match resp.error {
                    Some(e) => {
                        let mut m = String::from_str("Agent error ");
                        let code = i64_to_decimal(e.code);
                        m.append(code.as_str());
                        m.append(": ");
                        m.append(e.message.as_str());
                        Err(GatewayError::Platform(m))
                    },
                    None => match resp.result {
                        Some(v) => Ok(v),
                        None => Err(GatewayError::Platform(String::from_str("Agent response missing result"))),
                    },
                }
            },
            ReplyOutcome::ChannelClosed => Err(
                GatewayError::Platform(String::from_str("Agent response channel closed")),
            ),
            ReplyOutcome::TimedOut => {
                let mut pending = HashMap::new();
                std::mem::swap(&mut pending, &mut self.pending);
                let _ = pending.remove(&id);
                self.pending = pending;
                let mut m = String::from_str("Agent request timed out after ");
                let secs = u64_to_decimal(self.config.request_timeout_secs);
                m.append(secs.as_str());
                m.append("s: ");
                m.append(method);
                Err(GatewayError::Platform(m))
            },
        }
    }

    /// Prepares `start_session`; its reply is to go to `reply_to`.
    pub fn start_session(
        &mut self,
        session_id: String,
        platform: String,
        chat_id: String,
        user_id: String,
        config: SessionConfig,
        reply_to: tokio::sync::oneshot::Sender<JsonRpcResponse>,
    ) -> (r: Result<JsonRpcRequest, GatewayError>)
        requires
            old(self).is_running() ==> old(self).next_request_id() < u64::MAX,
        ensures
            old(self).is_running() <==> r is Ok,
            r matches Ok(req) ==> req@ == request_spec(
                "start_session"@,
                start_session_params(session_id@, platform@, chat_id@, user_id@, config.json()),
                old(self).next_request_id(),
            ),
            r matches Ok(req) ==> request_prepared(*old(self), *final(self), req@, reply_to),
            r is Err ==> failure_of(r) == Some("Agent subprocess not running"@) && same_state(*old(self), *final(self)),
    {
        let mut fields: Vec<(String, JsonValue)> = Vec::new();
        assert(fields_view(fields@) =~= Seq::empty());
        let config_json = config.to_json();
        push_field(&mut fields, "session_id", json_string(session_id));
        push_field(&mut fields, "platform", json_string(platform));
        push_field(&mut fields, "chat_id", json_string(chat_id));
        push_field(&mut fields, "user_id", json_string(user_id));
        push_field(&mut fields, "config", config_json);
        assert(fields_view(fields@) =~= seq![
            ("session_id"@, jstr(session_id@)),
            ("platform"@, jstr(platform@)),
            ("chat_id"@, jstr(chat_id@)),
            ("user_id"@, jstr(user_id@)),
            ("config"@, config.json()),
        ]);
        let params = make_object(fields);
        self.send_request("start_session", params, reply_to)
    }

    /// Prepares `handle_message` for a user's message; its reply is to go to `reply_to`.
    pub fn handle_message(
        &mut self,
        session_id: String,
        text: String,
        attachments: Vec<MessageAttachment>,
        reply_to_message_id: Option<String>,
        reply_to: tokio::sync::oneshot::Sender<JsonRpcResponse>,
    ) -> (r: Result<JsonRpcRequest, GatewayError>)
        requires
            old(self).is_running() ==> old(self).next_request_id() < u64::MAX,
        ensures
            old(self).is_running() <==> r is Ok,
            r matches Ok(req) ==> req@ == request_spec(
                "handle_message"@,
                handle_message_params(
                    session_id@,
                    text@,
                    attachments_json(attachments@),
                    opt_str_view(reply_to_message_id),
                ),
                old(self).next_request_id(),
            ),
            r matches Ok(req) ==> request_prepared(*old(self), *final(self), req@, reply_to),
            r is Err ==> failure_of(r) == Some("Agent subprocess not running"@) && same_state(*old(self), *final(self)),
    {
        let mut fields: Vec<(String, JsonValue)> = Vec::new();
        assert(fields_view(fields@) =~= Seq::empty());
        let attachments_value = attachments_to_json(&attachments);
        let reply_value = json_opt_str(&reply_to_message_id);
        push_field(&mut fields, "session_id", json_string(session_id));
        push_field(&mut fields, "text", json_string(text));
        push_field(&mut fields, "attachments", attachments_value);
        push_field(&mut fields, "reply_to_message_id", reply_value);
        assert(fields_view(fields@) =~= seq![
            ("session_id"@, jstr(session_id@)),
            ("text"@, jstr(text@)),
            ("attachments"@, attachments_json(attachments@)),
            ("reply_to_message_id"@, jopt_str(opt_str_view(reply_to_message_id))),
        ]);
        let params = make_object(fields);
        self.send_request("handle_message", params, reply_to)
    }

    /// Prepares `interrupt`; its reply is to go to `reply_to`.
    pub fn interrupt(
        &mut self,
        session_id: String,
        reason: String,
        reply_to: tokio::sync::oneshot::Sender<JsonRpcResponse>,
    ) -> (r: Result<JsonRpcRequest, GatewayError>)
        requires
            old(self).is_running() ==> old(self).next_request_id() < u64::MAX,
        ensures
            old(self).is_running() <==> r is Ok,
            r matches Ok(req) ==> req@ == request_spec(
                "interrupt"@,
                interrupt_params(session_id@, reason@),
                old(self).next_request_id(),
            ),
            r matches Ok(req) ==> request_prepared(*old(self), *final(self), req@, reply_to),
            r is Err ==> failure_of(r) == Some("Agent subprocess not running"@) && same_state(*old(self), *final(self)),
    {
        let mut fields: Vec<(String, JsonValue)> = Vec::new();
        assert(fields_view(fields@) =~= Seq::empty());
        push_field(&mut fields, "session_id", json_string(session_id));
        push_field(&mut fields, "reason", json_string(reason));
        assert(fields_view(fields@) =~= seq![
            ("session_id"@, jstr(session_id@)),
            ("reason"@, jstr(reason@)),
        ]);
        let params = make_object(fields);
        self.send_request("interrupt", params, reply_to)
    }

    /// Prepares `end_session`; its reply is to go to `reply_to`.
    pub fn end_session(
        &mut self,
        session_id: String,
        reply_to: tokio::sync::oneshot::Sender<JsonRpcResponse>,
    ) -> (r: Result<JsonRpcRequest, GatewayError>)
        requires
            old(self).is_running() ==> old(self).next_request_id() < u64::MAX,
        ensures
            old(self).is_running() <==> r is Ok,
            r matches Ok(req) ==> req@ == request_spec(
                "end_session"@,
                end_session_params(session_id@),
                old(self).next_request_id(),
            ),
            r matches Ok(req) ==> request_prepared(*old(self), *final(self), req@, reply_to),
            r is Err ==> failure_of(r) == Some("Agent subprocess not running"@) && same_state(*old(self), *final(self)),
    {
        let mut fields: Vec<(String, JsonValue)> = Vec::new();
        assert(fields_view(fields@) =~= Seq::empty());
        push_field(&mut fields, "session_id", json_string(session_id));
        assert(fields_view(fields@) =~= seq![("session_id"@, jstr(session_id@))]);
        let params = make_object(fields);
        self.send_request("end_session", params, reply_to)
    }

    /// Prepares `ping`; its reply is to go to `reply_to`.
    pub fn ping(&mut self, reply_to: tokio::sync::oneshot::Sender<JsonRpcResponse>) -> (r: Result<JsonRpcRequest, GatewayError>)
        requires
            old(self).is_running() ==> old(self).next_request_id() < u64::MAX,
        ensures
            old(self).is_running() <==> r is Ok,
            r matches Ok(req) ==> req@ == request_spec(
                "ping"@,
                ping_params(),
                old(self).next_request_id(),
            ),
            r matches Ok(req) ==> request_prepared(*old(self), *final(self), req@, reply_to),
            r is Err ==> failure_of(r) == Some("Agent subprocess not running"@) && same_state(*old(self), *final(self)),
    {
        let fields: Vec<(String, JsonValue)> = Vec::new();
        assert(fields_view(fields@) =~= Seq::empty());
        let params = make_object(fields);
        self.send_request("ping", params, reply_to)
    }

    /// The reply to `start_session`, decoded.
    pub fn finish_start_session(result: Result<JsonValue, GatewayError>) -> (r: Result<
        StartSessionResponse,
        GatewayError,
    >)
        ensures
            decode_outcome(result, "start_session"@, |v: JsonView| StartSessionResponse::decode_error(v), failure_of(r)),
            r matches Ok(x) ==> result matches Ok(v) && x.decoded_from(v@),
    {
        match result {
            Err(e) => Err(e),
            Ok(v) => match StartSessionResponse::from_json(&v) {
                Ok(x) => Ok(x),
                Err(why) => Err(invalid_response("start_session", why)),
            },
        }
    }

    /// The reply to `handle_message`, decoded.
    pub fn finish_handle_message(result: Result<JsonValue, GatewayError>) -> (r: Result<
        HandleMessageResponse,
        GatewayError,
    >)
        ensures
            decode_outcome(result, "handle_message"@, |v: JsonView| HandleMessageResponse::decode_error(v), failure_of(r)),
            r matches Ok(x) ==> result matches Ok(v) && x.decoded_from(v@),
    {
        match result {
            Err(e) => Err(e),
            Ok(v) => match HandleMessageResponse::from_json(&v) {
                Ok(x) => Ok(x),
                Err(why) => Err(invalid_response("handle_message", why)),
            },
        }
    }

    /// The reply to `end_session`, decoded.
    pub fn finish_end_session(result: Result<JsonValue, GatewayError>) -> (r: Result<
        EndSessionResponse,
        GatewayError,
    >)
        ensures
            decode_outcome(result, "end_session"@, |v: JsonView| EndSessionResponse::decode_error(v), failure_of(r)),
            r matches Ok(x) ==> result matches Ok(v) && x.decoded_from(v@),
    {
        match result {
            Err(e) => Err(e),
            Ok(v) => match EndSessionResponse::from_json(&v) {
                Ok(x) => Ok(x),
                Err(why) => Err(invalid_response("end_session", why)),
            },
        }
    }

    /// The reply to `ping`, decoded.
    pub fn finish_ping(result: Result<JsonValue, GatewayError>) -> (r: Result<PingResponse, GatewayError>)
        ensures
            decode_outcome(result, "ping"@, |v: JsonView| PingResponse::decode_error(v), failure_of(r)),
            r matches Ok(x) ==> result matches Ok(v) && x.decoded_from(v@),
    {
        match result {
            Err(e) => Err(e),
            Ok(v) => match PingResponse::from_json(&v) {
                Ok(x) => Ok(x),
                Err(why) => Err(invalid_response("ping", why)),
            },
        }
    }

    /// The reply to `interrupt`: its result is not read.
    pub fn finish_interrupt(result: Result<JsonValue, GatewayError>) -> (r: Result<(), GatewayError>)
        ensures
            failure_of(r) == failure_of(result),
    {
        match result {
            Err(e) => Err(e),
            Ok(_) => Ok(()),
        }
    }
}

/// The two states agree in everything.
pub open spec fn same_state(a: AgentBridge, b: AgentBridge) -> bool {
    &&& a.is_running() == b.is_running()
    &&& a.next_request_id() == b.next_request_id()
    &&& a.pending_map() == b.pending_map()
    &&& a.subscriber_map() == b.subscriber_map()
    &&& a.spec_config() == b.spec_config()
}

/// What a line from the agent does, given the outcome of parsing it as JSON.
///
/// A reply (an object with a `jsonrpc` string and an integer `id`) to a
/// pending request is handed over and withdraws the request; a reply to
/// anything else is reported. A notification that decodes goes to the
/// subscriber of the session named by its `session_id`, or is reported as
/// having none; one that does not decode is rejected with the reason.
/// Anything else is left unparsed. Only a handed-over reply changes the state.
pub open spec fn line_effect(
    pre: AgentBridge,
    post: AgentBridge,
    parsed: Result<JsonView, Seq<char>>,
    r: AgentLine,
) -> bool {
    match parsed {
        Err(_) => r is Unparsed && same_state(pre, post),
        Ok(v) => match response_decode(v) {
            Some(resp) => if pre.pending_ids().contains(resp.id) {
                &&& r matches AgentLine::Reply { reply, response } && response@ == resp && reply
                    == pre.pending_map()[resp.id]
                &&& post.pending_map() == pre.pending_map().remove(resp.id)
                &&& post.is_running() == pre.is_running()
                &&& post.next_request_id() == pre.next_request_id()
                &&& post.subscriber_map() == pre.subscriber_map()
                &&& post.spec_config() == pre.spec_config()
            } else {
                &&& r matches AgentLine::UnknownResponse { id } && id == resp.id
                &&& same_state(pre, post)
            },
            None => match notification_decode(v) {
                None => r is Unparsed && same_state(pre, post),
                Some(n) => {
                    &&& same_state(pre, post)
                    &&& match from_rpc_error(n) {
                        Some(e) => r matches AgentLine::Rejected(GatewayError::Platform(m)) && m@ == e,
                        None => match r {
                            AgentLine::Deliver { session_id, notification } => {
                                &&& notification.decoded_from(n)
                                &&& session_id@ == n.params.str_at("session_id"@)->0
                                &&& pre.subscriber_map().contains_key(session_id@)
                            },
                            AgentLine::NoSubscriber { session_id, notification } => {
                                &&& notification.decoded_from(n)
                                &&& session_id@ == n.params.str_at("session_id"@)->0
                                &&& !pre.subscriber_map().contains_key(session_id@)
                            },
                            _ => false,
                        },
                    }
                },
            },
        },
    }
}

/// A line read from the agent's output, as it is handled: without its
/// trailing whitespace (the line end among it); `None` when nothing is left,
/// and such a line is skipped.
pub fn agent_line(raw: &str) -> (r: Option<String>)
    ensures
        match r {
            None => trim_end(raw@).len() == 0,
            Some(l) => l@ == trim_end(raw@) && l@.len() > 0,
        },
{
    let t = trim_end_str(raw);
    if t.as_str().unicode_len() == 0 {
        None
    } else {
        Some(t)
    }
}

/// The view of a parse outcome.
pub open spec fn parsed_view(parsed: Result<JsonValue, String>) -> Result<JsonView, Seq<char>> {
    match parsed {
        Ok(v) => Ok(v@),
        Err(e) => Err(e@),
    }
}

impl AgentBridge {
    /// Handles a line from the agent whose JSON parse gave `parsed`.
    pub fn handle_agent_value(&mut self, parsed: Result<JsonValue, String>) -> (r: AgentLine)
        ensures
            line_effect(*old(self), *final(self), parsed_view(parsed), r),
    {
        proof {
            use_type_invariant(&*self);
        }
        let v = match parsed {
            Ok(v) => v,
            Err(_) => return AgentLine::Unparsed,
        };
        match JsonRpcResponse::from_json(&v) {
            Some(response) => {
                let mut pending = HashMap::new();
                std::mem::swap(&mut pending, &mut self.pending);
                let taken = pending.remove(&response.id);
                self.pending = pending;
                match taken {
                    Some(reply) => AgentLine::Reply { reply, response },
                    None => {
                        assert(self.pending@ =~= old(self).pending@);
                        AgentLine::UnknownResponse { id: response.id }
                    },
                }
            },
            None => match JsonRpcNotification::from_json(&v) {
                None => AgentLine::Unparsed,
                Some(n) => match AgentNotification::from_rpc(&n) {
                    Err(e) => AgentLine::Rejected(e),
                    Ok(notification) => {
                        let session_id = notification.session_id().clone();
                        if self.is_subscribed(session_id.as_str()) {
                            AgentLine::Deliver { session_id, notification }
                        } else {
                            AgentLine::NoSubscriber { session_id, notification }
                        }
                    },
                },
            },
        }
    }

    /// Handles a line read from the agent: parses it as JSON, then as
    /// [`AgentBridge::handle_agent_value`] says.
    pub fn handle_agent_message(&mut self, line: &str) -> (r: AgentLine)
        ensures
            line_effect(*old(self), *final(self), json_parse(line@), r),
    {
        let parsed = parse_json_text(line);
        self.handle_agent_value(parsed)
    }
}

// ---------------------------------------------------------------------------
// Laws
// ---------------------------------------------------------------------------

/// Each request names its parameters after what they carry: `start_session`
/// sends the session, platform, chat and user ids under their own names and
/// the configuration under `config`; `handle_message` the session id, the
/// text, the attachments and the reply target (`null` when none);
/// `interrupt` the session id and the reason; `end_session` the session id;
/// `ping` nothing.
pub proof fn law_request_params_by_name(
    session_id: Seq<char>,
    platform: Seq<char>,
    chat_id: Seq<char>,
    user_id: Seq<char>,
    config: JsonView,
    text: Seq<char>,
    attachments: JsonView,
    reply_to: Option<Seq<char>>,
    reason: Seq<char>,
)
    ensures
        ({
            let p = start_session_params(session_id, platform, chat_id, user_id, config);
            &&& p.get("session_id"@) == Some(JsonView::Str(session_id))
            &&& p.get("platform"@) == Some(JsonView::Str(platform))
            &&& p.get("chat_id"@) == Some(JsonView::Str(chat_id))
            &&& p.get("user_id"@) == Some(JsonView::Str(user_id))
            &&& p.get("config"@) == Some(config)
        }),
        ({
            let p = handle_message_params(session_id, text, attachments, reply_to);
            &&& p.get("session_id"@) == Some(JsonView::Str(session_id))
            &&& p.get("text"@) == Some(JsonView::Str(text))
            &&& p.get("attachments"@) == Some(attachments)
            &&& p.get("reply_to_message_id"@) == Some(
                match reply_to {
                    Some(r) => JsonView::Str(r),
                    None => JsonView::Null,
                },
            )
        }),
        ({
            let p = interrupt_params(session_id, reason);
            &&& p.get("session_id"@) == Some(JsonView::Str(session_id))
            &&& p.get("reason"@) == Some(JsonView::Str(reason))
        }),
        end_session_params(session_id).get("session_id"@) == Some(JsonView::Str(session_id)),
        ping_params() == JsonView::Object(Seq::empty()),
{
    reveal_with_fuel(crate::json::assoc_get, 6);
    reveal_strlit("session_id");
    reveal_strlit("platform");
    reveal_strlit("chat_id");
    reveal_strlit("user_id");
    reveal_strlit("config");
    reveal_strlit("text");
    reveal_strlit("attachments");
    reveal_strlit("reply_to_message_id");
    reveal_strlit("reason");
    assert("session_id"@.len() == 10);
    assert("platform"@.len() == 8);
    assert("chat_id"@.len() == 7);
    assert("user_id"@.len() == 7);
    assert("chat_id"@[0] != "user_id"@[0]);
    assert("config"@.len() == 6);
    assert("text"@.len() == 4);
    assert("attachments"@.len() == 11);
    assert("reply_to_message_id"@.len() == 19);
    assert("reason"@.len() == 6);
}

/// What a reply gives: the result when there is no error; "Agent error
/// <code>: <message>" when the reply carries an error, whatever its result;
/// "Agent response missing result" when it carries neither. A request that
/// times out fails with "Agent request timed out after <secs>s: <method>".
pub proof fn law_reply_results(resp: ResponseView, secs: u64, method: Seq<char>)
    ensures
        resp.error matches Some(e) ==> reply_result(resp) == Err::<JsonView, Seq<char>>(
            "Agent error "@ + signed_decimal(e.code as int) + ": "@ + e.message,
        ),
        resp.error is None && resp.result is Some ==> reply_result(resp) == Ok::<JsonView, Seq<char>>(resp.result->0),
        resp.error is None && resp.result is None ==> reply_result(resp) == Err::<JsonView, Seq<char>>(
            "Agent response missing result"@,
        ),
        timeout_msg(secs, method) == "Agent request timed out after "@ + decimal(secs as nat) + "s: "@ + method,
{
}

/// A reply that does not decode fails as "Invalid <method> response: <why>";
/// a failure before decoding passes through unchanged; a reply that decodes
/// succeeds.
pub proof fn law_decode_outcomes(
    result: Result<JsonValue, GatewayError>,
    method: Seq<char>,
    why: spec_fn(JsonView) -> Option<Seq<char>>,
    r_err: Option<Seq<char>>,
)
    requires
        decode_outcome(result, method, why, r_err),
    ensures
        result matches Err(GatewayError::Platform(m)) ==> r_err == Some(m@),
        result matches Ok(v) ==> match why(v@) {
            Some(e) => r_err == Some("Invalid "@ + method + " response: "@ + e),
            None => r_err is None,
        },
{
}

/// Requests prepared one after another on a fresh bridge get the ids 1, 2,
/// ..., n in the order they were prepared (so no two share an id); afterwards
/// exactly those ids await replies, each with the sender it was prepared
/// with, and the next id is n + 1.
pub proof fn law_request_ids_sequential(
    states: Seq<AgentBridge>,
    requests: Seq<RequestView>,
    replies: Seq<tokio::sync::oneshot::Sender<JsonRpcResponse>>,
)
    requires
        states.len() == requests.len() + 1,
        replies.len() == requests.len(),
        states[0].next_request_id() == 1,
        states[0].pending_ids() == Set::<u64>::empty(),
        forall|i: int|
            0 <= i < requests.len() ==> #[trigger] request_prepared(states[i], states[i + 1], requests[i], replies[i]),
    ensures
        forall|i: int| 0 <= i < requests.len() ==> #[trigger] requests[i].id == i + 1,
        states.last().next_request_id() == requests.len() + 1,
        states.last().pending_ids() == Set::new(|id: u64| 1 <= id <= requests.len()),
        forall|i: int|
            0 <= i < requests.len() ==> states.last().pending_map()[#[trigger] requests[i].id] == replies[i],
    decreases requests.len(),
{
    let n = requests.len() as int;
    if n == 0 {
        assert(states.last().pending_ids() =~= Set::new(|id: u64| 1 <= id <= 0));
    } else {
        let s2 = states.take(n);
        let q2 = requests.take(n - 1);
        let p2 = replies.take(n - 1);
        assert forall|i: int| 0 <= i < q2.len() implies #[trigger] request_prepared(s2[i], s2[i + 1], q2[i], p2[i]) by {
            assert(request_prepared(states[i], states[i + 1], requests[i], replies[i]));
        }
        law_request_ids_sequential(s2, q2, p2);
        let prev = states[n - 1];
        assert(s2.last() == prev);
        assert(request_prepared(prev, states[n], requests[n - 1], replies[n - 1]));
        assert forall|i: int| 0 <= i < n implies #[trigger] requests[i].id == i + 1 by {
            if i < n - 1 {
                assert(q2[i] == requests[i]);
            }
        }
        assert(states.last().pending_ids() =~= Set::new(|id: u64| 1 <= id <= n));
        assert forall|i: int| 0 <= i < n implies states.last().pending_map()[#[trigger] requests[i].id] == replies[i] by {
            if i < n - 1 {
                assert(q2[i] == requests[i]);
                assert(p2[i] == replies[i]);
                assert(requests[i].id != requests[n - 1].id);
            }
        }
    }
}

/// A reply is handed to its request once: after the reply to a pending
/// request was handed over, the same reply again matches no request.
pub proof fn law_reply_delivered_once(
    b0: AgentBridge,
    b1: AgentBridge,
    b2: AgentBridge,
    v: JsonView,
    r1: AgentLine,
    r2: AgentLine,
)
    requires
        response_decode(v) is Some,
        b0.pending_ids().contains(response_decode(v)->0.id),
        line_effect(b0, b1, Ok(v), r1),
        line_effect(b1, b2, Ok(v), r2),
    ensures
        r1 is Reply,
        r2 matches AgentLine::UnknownResponse { id } && id == response_decode(v)->0.id,
        !b2.pending_ids().contains(response_decode(v)->0.id),
{
    assert(b1.pending_ids() == b0.pending_map().remove(response_decode(v)->0.id).dom());
}

/// A reply that arrives after its request timed out matches no request.
pub proof fn law_reply_after_timeout_unknown(
    b0: AgentBridge,
    b1: AgentBridge,
    b2: AgentBridge,
    v: JsonView,
    r: AgentLine,
)
    requires
        response_decode(v) is Some,
        b1.pending_map() == b0.pending_map().remove(response_decode(v)->0.id),
        line_effect(b1, b2, Ok(v), r),
    ensures
        r matches AgentLine::UnknownResponse { id } && id == response_decode(v)->0.id,
{
    assert(b1.pending_ids() == b1.pending_map().dom());
}

/// A notification that decodes goes to the subscriber of the session it
/// names exactly when that session is subscribed.
pub proof fn law_notification_routed_to_session(b0: AgentBridge, b1: AgentBridge, v: JsonView, r: AgentLine)
    requires
        response_decode(v) is None,
        notification_decode(v) is Some,
        from_rpc_error(notification_decode(v)->0) is None,
        line_effect(b0, b1, Ok(v), r),
    ensures
        ({
            let sid = notification_decode(v)->0.params.str_at("session_id"@)->0;
            &&& b0.subscriber_map().contains_key(sid) ==> (r matches AgentLine::Deliver { session_id, .. }
                && session_id@ == sid)
            &&& !b0.subscriber_map().contains_key(sid) ==> r is NoSubscriber
        }),
        same_state(b0, b1),
{
}

/// Unsubscribing undoes subscribing: the subscriptions are those before,
/// without the session.
pub proof fn law_unsubscribe_undoes_subscribe(
    b0: AgentBridge,
    b1: AgentBridge,
    b2: AgentBridge,
    k: Seq<char>,
    tx: tokio::sync::mpsc::UnboundedSender<AgentNotification>,
)
    requires
        subscribe_effect(b0, b1, k, tx),
        unsubscribe_effect(b1, b2, k),
    ensures
        b2.subscriber_map() == b0.subscriber_map().remove(k),
{
    assert(b2.subscriber_map() =~= b0.subscriber_map().remove(k));
}

/// After subscribing, the session's notifications go to the sender it
/// subscribed with.
pub proof fn law_subscribed_after_subscribe(
    b0: AgentBridge,
    b1: AgentBridge,
    k: Seq<char>,
    tx: tokio::sync::mpsc::UnboundedSender<AgentNotification>,
)
    requires
        subscribe_effect(b0, b1, k, tx),
    ensures
        b1.subscriber_map().contains_key(k),
        b1.subscriber_map()[k] == tx,
{
}

} // verus!
