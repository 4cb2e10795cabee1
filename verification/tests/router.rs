use hermes_gateway::agent_bridge::types::{HandleMessageResponse, StartSessionResponse};
use hermes_gateway::error::GatewayError;
use hermes_gateway::router::session::{SessionConfig, SessionManager, Timestamp};
use hermes_gateway::router::stream::{StreamAction, StreamEvent, StreamManager};
use hermes_gateway::router::{
    after_handle_message, after_start_session,
    attachment_kind, convert_attachments, session_id_for, Attachment, InboundMessage, Router, RouterError,
};
use hermes_gateway::json::JsonValue;

fn inbound(platform: &str, chat: &str, text: &str) -> InboundMessage {
    InboundMessage {
        platform: platform.to_string(),
        chat_id: chat.to_string(),
        user_id: "user1".to_string(),
        text: text.to_string(),
        attachments: vec![],
        reply_to_message_id: None,
    }
}

fn config(platform: &str, chat: &str) -> SessionConfig {
    SessionConfig {
        platform: platform.into(),
        chat_id: chat.into(),
        user_id: "u".into(),
        model: None,
        max_turns: None,
        toolsets: None,
    }
}

#[test]
fn session_id_is_platform_underscore_chat() {
    assert_eq!(session_id_for("qqbot", "user123"), "qqbot_user123");
    assert_eq!(session_id_for("test", "123"), "test_123");
    assert_eq!(session_id_for("", ""), "_");
}

#[test]
fn attachment_kinds_by_mime_prefix() {
    assert_eq!(attachment_kind("image/png"), "image");
    assert_eq!(attachment_kind("audio/mpeg"), "audio");
    assert_eq!(attachment_kind("video/mp4"), "video");
    assert_eq!(attachment_kind("application/pdf"), "document");
    assert_eq!(attachment_kind("image"), "document");
    assert_eq!(attachment_kind(""), "document");
    let items = vec![
        Attachment { url: "u1".into(), mime_type: "image/jpeg".into(), filename: Some("a.jpg".into()) },
        Attachment { url: "u2".into(), mime_type: "text/plain".into(), filename: None },
    ];
    let out = convert_attachments(&items);
    assert_eq!(out.len(), 2);
    assert_eq!(out[0].attachment_type, "image");
    assert_eq!(out[0].url, "u1");
    assert!(out[0].caption.is_none());
    assert_eq!(out[1].attachment_type, "document");
}

#[test]
fn first_message_starts_the_session_once() {
    let mut router = Router::new("opus-4".to_string());
    let mut msg = inbound("qqbot", "c1", "hello");
    msg.attachments.push(Attachment { url: "x".into(), mime_type: "video/ogg".into(), filename: None });
    msg.reply_to_message_id = Some("r1".into());
    let plan = router.route_inbound(msg);
    assert_eq!(plan.session_id, "qqbot_c1");
    let start = plan.start_session.unwrap();
    assert_eq!(start.session_id, "qqbot_c1");
    assert_eq!(start.platform, "qqbot");
    assert_eq!(start.chat_id, "c1");
    assert_eq!(start.user_id, "user1");
    assert_eq!(start.config.model.as_deref(), Some("opus-4"));
    assert_eq!(start.config.max_turns, Some(90));
    assert!(start.config.toolsets.is_empty());
    assert_eq!(start.config.max_turns, Some(90));
    assert!(start.config.toolsets.is_empty());
    assert_eq!(plan.handle_message.text, "hello");
    assert_eq!(plan.handle_message.attachments[0].attachment_type, "video");
    assert_eq!(plan.handle_message.reply_to_message_id.as_deref(), Some("r1"));
    assert!(router.session_manager().has_session("qqbot_c1"));
    let session = router.session_manager().get_session("qqbot_c1").unwrap();
    assert_eq!(session.config.user_id, "user1");
    assert!(session.config.model.is_none());

    let plan2 = router.route_inbound(inbound("qqbot", "c1", "again"));
    assert_eq!(plan2.session_id, "qqbot_c1");
    assert!(plan2.start_session.is_none());
    assert_eq!(router.session_manager().count_sessions(), 1);

    let plan3 = router.route_inbound(inbound("qqbot", "c2", "other"));
    assert!(plan3.start_session.is_some());
    assert_eq!(router.session_manager().count_sessions(), 2);
}

#[test]
fn routing_at_a_given_time_records_it() {
    let mut router = Router::new("opus-4".to_string());
    let t = Timestamp { secs: 1700000000, nanos: 5 };
    let plan = router.route_inbound_at(inbound("test", "9", "x"), t);
    assert_eq!(plan.start_session.unwrap().config.model.as_deref(), Some("opus-4"));
    let s = router.session_manager().get_session("test_9").unwrap();
    assert_eq!(s.created_at, t);
    assert_eq!(s.last_activity, t);
}

#[test]
fn end_session_forgets_only_on_success() {
    let mut router = Router::new("opus-4".to_string());
    let _ = router.route_inbound(inbound("p", "c", "x"));
    let err = router.end_session("p_c", Err(GatewayError::Platform("down".into()))).err().unwrap();
    match &err {
        RouterError::AgentBridgeError(m) => assert_eq!(m, "down"),
        _ => panic!(),
    }
    assert_eq!(err.message(), "Agent bridge error: down");
    assert!(router.session_manager().has_session("p_c"));
    assert!(router.end_session("p_c", Ok(())).is_ok());
    assert!(!router.session_manager().has_session("p_c"));
}

#[test]
fn interrupt_reason() {
    let router = Router::new("opus-4".to_string());
    let call = router.interrupt_session("p_c");
    assert_eq!(call.session_id, "p_c");
    assert_eq!(call.reason, "user_requested");
}

#[test]
fn router_error_messages() {
    assert_eq!(RouterError::SessionError("x".into()).message(), "Session error: x");
    assert_eq!(RouterError::StreamError("y".into()).message(), "Stream error: y");
}

#[test]
fn session_manager_operations() {
    let mut m = SessionManager::new();
    assert_eq!(m.count_sessions(), 0);
    assert!(m.create_session("a", config("p", "a")).is_ok());
    let t = Timestamp { secs: 10, nanos: 0 };
    m.create_session_at("b", config("p", "b"), t);
    assert!(m.has_session("a"));
    assert!(m.has_session("b"));
    assert!(!m.has_session("c"));
    let a = m.get_session("a").unwrap();
    assert_eq!(a.session_id, "a");
    assert_eq!(a.created_at, a.last_activity);
    let t2 = Timestamp { secs: 20, nanos: 7 };
    m.update_activity_at("b", t2);
    let b = m.get_session("b").unwrap();
    assert_eq!(b.created_at, t);
    assert_eq!(b.last_activity, t2);
    m.update_activity_at("zzz", t2);
    assert_eq!(m.count_sessions(), 2);
    m.update_activity("a");
    assert_eq!(m.get_session("a").unwrap().created_at, a.created_at);
    let mut ids: Vec<String> = m.list_sessions().into_iter().map(|s| s.session_id).collect();
    ids.sort();
    assert_eq!(ids, vec!["a".to_string(), "b".to_string()]);
    m.remove_session("a");
    assert!(!m.has_session("a"));
    assert!(m.get_session("a").is_none());
    assert_eq!(m.count_sessions(), 1);
    m.remove_session("a");
    assert_eq!(m.count_sessions(), 1);
}

#[test]
fn now_is_after_2020() {
    let mut m = SessionManager::new();
    m.create_session("a", config("p", "a")).unwrap();
    let s = m.get_session("a").unwrap();
    assert!(s.created_at.secs > 1_577_836_800);
    assert!(s.created_at.nanos < 2_000_000_000);
}

#[test]
fn stream_events_to_outbound() {
    let sm = StreamManager::new();
    assert!(sm.handle_stream("s", "p".into(), "c".into()).is_ok());
    let chunk = StreamEvent::StreamChunk { session_id: "s".into(), chat_id: "c".into(), text: "ab".into(), is_final: false };
    match sm.process_event(chunk, "qqbot") {
        StreamAction::SendChunk(m) => {
            assert_eq!(m.platform, "qqbot");
            assert_eq!(m.chat_id, "c");
            assert_eq!(m.text, "ab");
            assert!(m.is_streaming);
            assert!(m.metadata.is_none());
        }
        _ => panic!(),
    }
    let last = StreamEvent::StreamChunk { session_id: "s".into(), chat_id: "c".into(), text: "c".into(), is_final: true };
    match sm.process_event(last, "qqbot") {
        StreamAction::SendChunk(m) => assert!(!m.is_streaming),
        _ => panic!(),
    }
    let done = StreamEvent::MessageComplete {
        session_id: "s".into(),
        chat_id: "c".into(),
        text: "all".into(),
        metadata: Some(JsonValue::Bool(true)),
    };
    match sm.process_event(done, "tg") {
        StreamAction::SendComplete(m) => {
            assert!(!m.is_streaming);
            assert_eq!(m.text, "all");
            assert!(matches!(m.metadata, Some(JsonValue::Bool(true))));
        }
        _ => panic!(),
    }
    let typing = StreamEvent::TypingStart { session_id: "s".into(), chat_id: "c".into() };
    assert!(matches!(sm.process_event(typing, "p"), StreamAction::Ignore));
    let tool = StreamEvent::ToolCompleted {
        session_id: "s".into(),
        chat_id: "c".into(),
        tool_name: "t".into(),
        result: None,
        error: Some("bad".into()),
    };
    assert!(matches!(sm.process_event(tool, "p"), StreamAction::Ignore));
    let started = StreamEvent::ToolStarted { session_id: "s".into(), chat_id: "c".into(), tool_name: "t".into(), tool_params: JsonValue::Null };
    assert!(matches!(sm.process_event(started, "p"), StreamAction::Ignore));
}

#[test]
fn failed_start_session_stops_routing() {
    let mut router = Router::new("opus-4".to_string());
    let plan = router.route_inbound(inbound("qqbot", "c1", "hello"));
    let start = plan.start_session.unwrap();
    assert_eq!(start.session_id, "qqbot_c1");
    let down = after_start_session(plan.handle_message, Err(GatewayError::Platform("Agent subprocess not running".into())));
    match down {
        Err(RouterError::AgentBridgeError(m)) => assert_eq!(m, "Agent subprocess not running"),
        _ => panic!("expected the agent's failure"),
    }
    // The gateway keeps the session it opened.
    assert!(router.session_manager().has_session("qqbot_c1"));
    let plan = router.route_inbound(inbound("qqbot", "c2", "hi"));
    let ready = StartSessionResponse { status: "ready".into(), session_id: "qqbot_c2".into(), loaded_tools: 1, memory_snapshots: 0 };
    let call = after_start_session(plan.handle_message, Ok(ready)).unwrap();
    assert_eq!(call.session_id, "qqbot_c2");
    assert_eq!(call.text, "hi");
    let done = HandleMessageResponse { status: "processing".into(), message_id: "m".into() };
    assert!(after_handle_message(Ok(done)).is_ok());
    match after_handle_message(Err(GatewayError::Platform("Agent error -1: x".into()))) {
        Err(RouterError::AgentBridgeError(m)) => assert_eq!(m, "Agent error -1: x"),
        _ => panic!(),
    }
}

#[test]
fn new_session_times_agree() {
    let mut router = Router::new("opus-4".to_string());
    let _ = router.route_inbound(inbound("p", "c", "t"));
    let s = router.session_manager().get_session("p_c").unwrap();
    assert_eq!(s.created_at, s.last_activity);
}
