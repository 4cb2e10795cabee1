use hermes_gateway::agent_bridge::protocol::{shutdown_notification, JsonRpcNotification, JsonRpcResponse};
use hermes_gateway::agent_bridge::types::{AgentNotification, MessageAttachment, SessionConfig};
use hermes_gateway::agent_bridge::{agent_line, AgentBridge, AgentLine, BridgeConfig, ReplyOutcome};
use hermes_gateway::error::GatewayError;
use hermes_gateway::json::{JsonNumber, JsonValue};
use tokio::sync::{mpsc, oneshot};

fn from_serde(v: serde_json::Value) -> JsonValue {
    match v {
        serde_json::Value::Null => JsonValue::Null,
        serde_json::Value::Bool(b) => JsonValue::Bool(b),
        serde_json::Value::Number(n) => {
            if let Some(u) = n.as_u64() {
                JsonValue::Number(JsonNumber::PosInt(u))
            } else if let Some(i) = n.as_i64() {
                JsonValue::Number(JsonNumber::NegInt(i))
            } else {
                JsonValue::Number(JsonNumber::Float(n.to_string()))
            }
        }
        serde_json::Value::String(s) => JsonValue::Str(s),
        serde_json::Value::Array(a) => JsonValue::Array(a.into_iter().map(from_serde).collect()),
        serde_json::Value::Object(m) => {
            JsonValue::Object(m.into_iter().map(|(k, x)| (k, from_serde(x))).collect())
        }
    }
}

fn to_serde(v: &JsonValue) -> serde_json::Value {
    match v {
        JsonValue::Null => serde_json::Value::Null,
        JsonValue::Bool(b) => serde_json::Value::Bool(*b),
        JsonValue::Number(JsonNumber::PosInt(u)) => serde_json::Value::from(*u),
        JsonValue::Number(JsonNumber::NegInt(i)) => serde_json::Value::from(*i),
        JsonValue::Number(JsonNumber::Float(t)) => {
            serde_json::Value::from(t.parse::<f64>().unwrap())
        }
        JsonValue::Str(s) => serde_json::Value::String(s.clone()),
        JsonValue::Array(a) => serde_json::Value::Array(a.iter().map(to_serde).collect()),
        JsonValue::Object(m) => {
            let mut map = serde_json::Map::new();
            for (k, x) in m {
                map.insert(k.clone(), to_serde(x));
            }
            serde_json::Value::Object(map)
        }
    }
}

fn js(text: &str) -> JsonValue {
    from_serde(serde_json::from_str(text).unwrap())
}

fn assert_json(v: &JsonValue, expected: &str) {
    let e: serde_json::Value = serde_json::from_str(expected).unwrap();
    assert_eq!(to_serde(v), e);
}

fn msg(e: GatewayError) -> String {
    match e {
        GatewayError::Platform(m) => m,
    }
}

fn running_bridge() -> AgentBridge {
    let mut bridge = AgentBridge::new(BridgeConfig::default());
    assert!(bridge.start());
    bridge.mark_started();
    bridge
}

#[test]
fn test_bridge_config_default() {
    let config = BridgeConfig::default();
    assert_eq!(config.python_path, "python3");
    assert_eq!(config.agent_module, "hermes_cli.agent_bridge");
    assert_eq!(config.heartbeat_interval_secs, 30);
    assert!(config.auto_restart);
}

#[test]
fn test_bridge_lifecycle() {
    let config = BridgeConfig::default();
    let bridge = AgentBridge::new(config);

    // Bridge should not be started yet
    assert!(!bridge.running());
}

#[test]
fn default_config_other_fields() {
    let config = BridgeConfig::default();
    assert_eq!(config.request_timeout_secs, 300);
    assert_eq!(config.max_restart_attempts, 3);
    assert!(config.working_dir.is_none());
    assert!(config.env_vars.is_empty());
    assert_eq!(config.agent_args(), vec!["-m".to_string(), "hermes_cli.agent_bridge".to_string()]);
}

#[test]
fn start_is_idempotent_and_stop_allows_restart() {
    let mut bridge = AgentBridge::new(BridgeConfig::default());
    assert!(bridge.start());
    bridge.mark_started();
    assert!(!bridge.start());
    assert!(bridge.stop());
    assert!(!bridge.running());
    assert!(!bridge.stop());
    assert!(bridge.start());
}

#[test]
fn requests_fail_when_not_running() {
    let mut bridge = AgentBridge::new(BridgeConfig::default());
    let (tx, mut rx) = oneshot::channel();
    match bridge.ping(tx) {
        Err(e) => assert_eq!(msg(e), "Agent subprocess not running"),
        Ok(_) => panic!("expected failure"),
    }
    assert_eq!(bridge.next_id(), 1);
    // The refused request's reply sender was dropped.
    assert!(rx.try_recv().is_err());
}

#[test]
fn request_ids_increase_and_are_pending() {
    let mut bridge = running_bridge();
    let (t1, _r1) = oneshot::channel();
    let (t2, _r2) = oneshot::channel();
    let a = bridge.ping(t1).ok().unwrap();
    let b = bridge.end_session("s1".to_string(), t2).ok().unwrap();
    assert_eq!(a.id, 1);
    assert_eq!(b.id, 2);
    assert!(bridge.is_pending(1));
    assert!(bridge.is_pending(2));
    assert!(!bridge.is_pending(3));
    assert_eq!(bridge.next_id(), 3);
    assert_eq!(a.method, "ping");
    assert_eq!(a.jsonrpc, "2.0");
    assert_json(&a.params, "{}");
    assert_json(&b.params, r#"{"session_id":"s1"}"#);
    assert_json(
        &b.to_json(),
        r#"{"jsonrpc":"2.0","method":"end_session","params":{"session_id":"s1"},"id":2}"#,
    );
}

#[test]
fn start_session_and_handle_message_params() {
    let mut bridge = running_bridge();
    let config = SessionConfig {
        model: Some("m1".to_string()),
        max_turns: Some(90),
        toolsets: vec!["core".to_string(), "web".to_string()],
        personality: None,
        budget: None,
    };
    let call = bridge
        .start_session("qqbot_c".into(), "qqbot".into(), "c".into(), "u".into(), config, oneshot::channel().0)
        .ok()
        .unwrap();
    assert_eq!(call.method, "start_session");
    assert_json(
        &call.params,
        r#"{"session_id":"qqbot_c","platform":"qqbot","chat_id":"c","user_id":"u",
            "config":{"model":"m1","max_turns":90,"toolsets":["core","web"],"personality":null,"budget":null}}"#,
    );
    let att = MessageAttachment {
        attachment_type: "image".into(),
        url: "https://example.com/a.jpg".into(),
        caption: None,
    };
    let call = bridge
        .handle_message("qqbot_c".into(), "hi".into(), vec![att], Some("m9".into()), oneshot::channel().0)
        .ok()
        .unwrap();
    assert_eq!(call.id, 2);
    assert_json(
        &call.params,
        r#"{"session_id":"qqbot_c","text":"hi",
            "attachments":[{"type":"image","url":"https://example.com/a.jpg","caption":null}],
            "reply_to_message_id":"m9"}"#,
    );
    let call = bridge.interrupt("qqbot_c".into(), "user_requested".into(), oneshot::channel().0).ok().unwrap();
    assert_json(&call.params, r#"{"session_id":"qqbot_c","reason":"user_requested"}"#);
}

#[test]
fn reply_is_delivered_once() {
    let mut bridge = running_bridge();
    let (reply_to, mut reply) = oneshot::channel();
    let call = bridge.ping(reply_to).ok().unwrap();
    assert_eq!(call.id, 1);
    let line = r#"{"jsonrpc":"2.0","result":{"status":"alive","sessions":3},"id":1}"#;
    match bridge.handle_agent_message(line) {
        AgentLine::Reply { reply, response } => {
            assert_eq!(response.id, 1);
            reply.send(response).ok().unwrap();
        }
        _ => panic!("expected a reply"),
    }
    assert!(!bridge.is_pending(1));
    let response = reply.try_recv().unwrap();
    let result = bridge.finish_request(1, "ping", ReplyOutcome::Received(response));
    let pong = AgentBridge::finish_ping(result).ok().unwrap();
    assert_eq!(pong.status, "alive");
    assert_eq!(pong.sessions, 3);
    match bridge.handle_agent_message(line) {
        AgentLine::UnknownResponse { id } => assert_eq!(id, 1),
        _ => panic!("expected an unknown response"),
    }
}

#[test]
fn reply_after_timeout_is_unknown() {
    let mut bridge = running_bridge();
    let _call = bridge.handle_message("s".into(), "t".into(), vec![], None, oneshot::channel().0).ok().unwrap();
    let err = bridge.finish_request(1, "handle_message", ReplyOutcome::TimedOut).err().unwrap();
    assert_eq!(msg(err), "Agent request timed out after 300s: handle_message");
    assert!(!bridge.is_pending(1));
    match bridge.handle_agent_message(r#"{"jsonrpc":"2.0","result":{},"id":1}"#) {
        AgentLine::UnknownResponse { id } => assert_eq!(id, 1),
        _ => panic!("expected an unknown response"),
    }
}

#[test]
fn reply_errors() {
    let mut bridge = running_bridge();
    let resp = JsonRpcResponse::from_json(&js(
        r#"{"jsonrpc":"2.0","error":{"code":-40004,"message":"Rate limited"},"id":2}"#,
    ))
    .unwrap();
    let err = bridge.finish_request(2, "ping", ReplyOutcome::Received(resp)).err().unwrap();
    assert_eq!(msg(err), "Agent error -40004: Rate limited");
    let resp = JsonRpcResponse::from_json(&js(r#"{"jsonrpc":"2.0","id":2}"#)).unwrap();
    let err = bridge.finish_request(2, "ping", ReplyOutcome::Received(resp)).err().unwrap();
    assert_eq!(msg(err), "Agent response missing result");
    let resp = JsonRpcResponse::from_json(&js(r#"{"jsonrpc":"2.0","result":null,"id":2}"#)).unwrap();
    let err = bridge.finish_request(2, "ping", ReplyOutcome::Received(resp)).err().unwrap();
    assert_eq!(msg(err), "Agent response missing result");
    let err = bridge.finish_request(2, "ping", ReplyOutcome::ChannelClosed).err().unwrap();
    assert_eq!(msg(err), "Agent response channel closed");
}

#[test]
fn reply_decoding() {
    let ok = AgentBridge::finish_start_session(Ok(js(
        r#"{"status":"ready","session_id":"qqbot_x","loaded_tools":30,"memory_snapshots":2}"#,
    )))
    .ok()
    .unwrap();
    assert_eq!(ok.status, "ready");
    assert_eq!(ok.session_id, "qqbot_x");
    assert_eq!(ok.loaded_tools, 30);
    assert_eq!(ok.memory_snapshots, 2);
    let err = AgentBridge::finish_start_session(Ok(js(r#"{"status":"ready"}"#))).err().unwrap();
    assert_eq!(msg(err), "Invalid start_session response: missing field `session_id`");
    let err = AgentBridge::finish_end_session(Ok(js(r#"{"status":"ended","turns_processed":-1,"total_tokens":5}"#)))
        .err()
        .unwrap();
    assert_eq!(msg(err), "Invalid end_session response: invalid value: integer `-1`, expected u32");
    let end = AgentBridge::finish_end_session(Ok(js(
        r#"{"status":"ended","turns_processed":15,"total_tokens":45000}"#,
    )))
    .ok()
    .unwrap();
    assert_eq!(end.total_tokens, 45000);
    let h = AgentBridge::finish_handle_message(Ok(js(r#"{"status":"processing","message_id":"m1"}"#)))
        .ok()
        .unwrap();
    assert_eq!(h.message_id, "m1");
    let err = AgentBridge::finish_ping(Ok(js("[1]"))).err().unwrap();
    assert_eq!(msg(err), "Invalid ping response: invalid type: integer `1`, expected a string");
    let err = AgentBridge::finish_ping(Err(GatewayError::Platform("boom".into()))).err().unwrap();
    assert_eq!(msg(err), "boom");
    assert!(AgentBridge::finish_interrupt(Ok(js("{}"))).is_ok());
}

#[test]
fn notifications_reach_their_subscriber() {
    let mut bridge = running_bridge();
    let (tx, mut rx) = mpsc::unbounded_channel();
    bridge.subscribe("s1".to_string(), tx);
    assert!(bridge.is_subscribed("s1"));
    let line = r#"{"jsonrpc":"2.0","method":"stream_chunk","params":{"session_id":"s1","chat_id":"c","text":"hel","is_final":false}}"#;
    match bridge.handle_agent_message(line) {
        AgentLine::Deliver { session_id, notification } => {
            assert_eq!(session_id, "s1");
            bridge.subscriber(&session_id).unwrap().send(notification).unwrap();
        }
        _ => panic!("expected delivery"),
    }
    match rx.try_recv().unwrap() {
        AgentNotification::StreamChunk { text, is_final, .. } => {
            assert_eq!(text, "hel");
            assert!(!is_final);
        }
        _ => panic!("wrong notification"),
    }
    let other = r#"{"jsonrpc":"2.0","method":"typing_start","params":{"session_id":"s2","chat_id":"c"}}"#;
    match bridge.handle_agent_message(other) {
        AgentLine::NoSubscriber { session_id, .. } => assert_eq!(session_id, "s2"),
        _ => panic!("expected no subscriber"),
    }
    bridge.unsubscribe("s1");
    assert!(!bridge.is_subscribed("s1"));
    match bridge.handle_agent_message(line) {
        AgentLine::NoSubscriber { .. } => {}
        _ => panic!("expected no subscriber"),
    }
}

#[test]
fn resubscribing_replaces_the_subscriber() {
    let mut bridge = running_bridge();
    let (old_tx, mut old_rx) = mpsc::unbounded_channel();
    bridge.subscribe("s".to_string(), old_tx);
    let (new_tx, mut new_rx) = mpsc::unbounded_channel();
    bridge.subscribe("s".to_string(), new_tx);
    let line = r#"{"jsonrpc":"2.0","method":"typing_start","params":{"session_id":"s","chat_id":"c"}}"#;
    if let AgentLine::Deliver { session_id, notification } = bridge.handle_agent_message(line) {
        bridge.subscriber(&session_id).unwrap().send(notification).unwrap();
    } else {
        panic!("expected delivery");
    }
    assert!(new_rx.try_recv().is_ok());
    assert!(old_rx.try_recv().is_err());
}

#[test]
fn requests_get_ids_one_to_n() {
    let mut bridge = running_bridge();
    let mut replies = Vec::new();
    for k in 1..=5u64 {
        let (tx, rx) = oneshot::channel();
        let req = bridge.ping(tx).ok().unwrap();
        assert_eq!(req.id, k);
        replies.push(rx);
    }
    for k in 1..=5u64 {
        assert!(bridge.is_pending(k));
    }
    assert!(!bridge.is_pending(6));
    assert_eq!(bridge.next_id(), 6);
    // The reply to request 3 reaches the receiver paired with its sender.
    match bridge.handle_agent_message(r#"{"jsonrpc":"2.0","result":{"status":"alive","sessions":0},"id":3}"#) {
        AgentLine::Reply { reply, response } => reply.send(response).ok().unwrap(),
        _ => panic!("expected a reply"),
    }
    assert_eq!(replies[2].try_recv().unwrap().id, 3);
    assert!(replies[1].try_recv().is_err());
}

#[test]
fn agent_lines() {
    assert_eq!(agent_line("{\"a\":1}\n"), Some("{\"a\":1}".to_string()));
    assert_eq!(agent_line("x \t\r\n"), Some("x".to_string()));
    assert_eq!(agent_line("  lead"), Some("  lead".to_string()));
    assert_eq!(agent_line("\n"), None);
    assert_eq!(agent_line(" \t\u{3000}\n"), None);
    assert_eq!(agent_line(""), None);
    assert_eq!(agent_line("é\u{a0}"), Some("é".to_string()));
}

#[test]
fn bad_lines() {
    let mut bridge = running_bridge();
    assert!(matches!(bridge.handle_agent_message("not json"), AgentLine::Unparsed));
    assert!(matches!(bridge.handle_agent_message(r#"{"hello":1}"#), AgentLine::Unparsed));
    match bridge.handle_agent_message(r#"{"jsonrpc":"2.0","method":"mystery","params":{}}"#) {
        AgentLine::Rejected(e) => assert_eq!(msg(e), "Unknown notification method: mystery"),
        _ => panic!("expected rejection"),
    }
    match bridge.handle_agent_message(r#"{"jsonrpc":"2.0","method":"typing_start","params":{"chat_id":"c"}}"#) {
        AgentLine::Rejected(e) => assert_eq!(msg(e), "Missing session_id"),
        _ => panic!("expected rejection"),
    }
}

#[test]
fn shutdown_notification_round_trip() {
    let n = JsonRpcNotification::new("shutdown", js("{}"));
    assert_json(&n.to_json(), r#"{"jsonrpc":"2.0","method":"shutdown","params":{}}"#);
    let back = JsonRpcNotification::from_json(&n.to_json()).unwrap();
    assert_eq!(back.method, "shutdown");
    assert_eq!(back.jsonrpc, "2.0");
}

#[test]
fn messages_are_written_as_one_line() {
    let mut bridge = running_bridge();
    let req = bridge.handle_message("s".into(), "two\nlines".into(), vec![], None, oneshot::channel().0).ok().unwrap();
    let line = req.to_line();
    assert!(line.ends_with('\n'));
    assert_eq!(line.matches('\n').count(), 1);
    assert_eq!(
        line,
        "{\"id\":1,\"jsonrpc\":\"2.0\",\"method\":\"handle_message\",\"params\":{\"attachments\":[],\"reply_to_message_id\":null,\"session_id\":\"s\",\"text\":\"two\\nlines\"}}\n"
    );
    let back: serde_json::Value = serde_json::from_str(line.trim_end()).unwrap();
    assert_eq!(back, to_serde(&req.to_json()));
    let shutdown = shutdown_notification();
    assert_eq!(shutdown.method, "shutdown");
    assert_eq!(shutdown.to_line(), "{\"jsonrpc\":\"2.0\",\"method\":\"shutdown\",\"params\":{}}\n");
}

#[test]
fn rendering_keeps_the_first_member_and_floats() {
    let n = JsonRpcNotification::new(
        "m",
        JsonValue::Object(vec![
            ("k".to_string(), JsonValue::Number(JsonNumber::Float("1.5".to_string()))),
            ("k".to_string(), JsonValue::Bool(true)),
        ]),
    );
    assert_eq!(n.to_line(), "{\"jsonrpc\":\"2.0\",\"method\":\"m\",\"params\":{\"k\":1.5}}\n");
}
