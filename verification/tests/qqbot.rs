use hermes_gateway::platforms::qqbot::{
    message_event, next_failure_count, reconnect_delay_secs, send_result, HttpReply, LoopStep, QQBotAdapter, QQBotConfig, QQBotError,
    WsEvent, WsOutcome,
};
use hermes_gateway::router::OutboundMessage;
use hermes_gateway::json::{JsonNumber, JsonValue};


fn from_serde(v: serde_json::Value) -> JsonValue {
    match v {
        serde_json::Value::Null => JsonValue::Null,
        serde_json::Value::Bool(b) => JsonValue::Bool(b),
        serde_json::Value::Number(n) => {
            if let Some(u) = n.as_u64() {
                JsonValue::Number(JsonNumber::PosInt(u))
            } else if let Some(i) = n.as_i64() {
                JsonValue::Number(JsonNumber::NegInt(i))
            } else {
                JsonValue::Number(JsonNumber::Float(n.to_string()))
            }
        }
        serde_json::Value::String(s) => JsonValue::Str(s),
        serde_json::Value::Array(a) => JsonValue::Array(a.into_iter().map(from_serde).collect()),
        serde_json::Value::Object(m) => {
            JsonValue::Object(m.into_iter().map(|(k, x)| (k, from_serde(x))).collect())
        }
    }
}

fn to_serde(v: &JsonValue) -> serde_json::Value {
    match v {
        JsonValue::Null => serde_json::Value::Null,
        JsonValue::Bool(b) => serde_json::Value::Bool(*b),
        JsonValue::Number(JsonNumber::PosInt(u)) => serde_json::Value::from(*u),
        JsonValue::Number(JsonNumber::NegInt(i)) => serde_json::Value::from(*i),
        JsonValue::Number(JsonNumber::Float(t)) => {
            serde_json::Value::from(t.parse::<f64>().unwrap())
        }
        JsonValue::Str(s) => serde_json::Value::String(s.clone()),
        JsonValue::Array(a) => serde_json::Value::Array(a.iter().map(to_serde).collect()),
        JsonValue::Object(m) => {
            let mut map = serde_json::Map::new();
            for (k, x) in m {
                map.insert(k.clone(), to_serde(x));
            }
            serde_json::Value::Object(map)
        }
    }
}

fn js(text: &str) -> JsonValue {
    from_serde(serde_json::from_str(text).unwrap())
}

fn assert_json(v: &JsonValue, expected: &str) {
    let e: serde_json::Value = serde_json::from_str(expected).unwrap();
    assert_eq!(to_serde(v), e);
}

fn config(base: Option<&str>) -> QQBotConfig {
    QQBotConfig {
        app_id: "app1".into(),
        client_secret: "sec".into(),
        api_base: base.map(|s| s.to_string()),
        sandbox: None,
    }
}

fn ok_reply(body: &str) -> HttpReply {
    HttpReply::Received { success: true, status: "200 OK".into(), body: body.into() }
}

fn authed() -> QQBotAdapter {
    let mut a = QQBotAdapter::new(config(None));
    a.authenticate(ok_reply(r#"{"access_token":"tok","expires_in":"7200"}"#)).unwrap();
    a
}

#[test]
fn authentication() {
    let mut a = QQBotAdapter::new(config(None));
    assert_eq!(a.auth_url(), "https://bots.qq.com/app/getAppAccessToken");
    assert_json(&a.auth_body(), r#"{"appId":"app1","clientSecret":"sec"}"#);
    assert!(a.access_token().is_none());
    match a.authenticate(HttpReply::Received { success: false, status: "401 Unauthorized".into(), body: "no".into() }) {
        Err(QQBotError::AuthError(m)) => assert_eq!(m, "Failed to authenticate: 401 Unauthorized - no"),
        _ => panic!(),
    }
    match a.authenticate(ok_reply("{}")) {
        Err(QQBotError::AuthError(m)) => assert_eq!(m, "No access_token in response"),
        _ => panic!(),
    }
    assert!(matches!(a.authenticate(ok_reply("<html>")), Err(QQBotError::HttpError(m)) if m == "error decoding response body"));
    assert!(matches!(QQBotAdapter::gateway_url(ok_reply("nope")), Err(QQBotError::HttpError(m)) if m == "error decoding response body"));
    assert!(matches!(a.authenticate(HttpReply::Failed("timeout".into())), Err(QQBotError::HttpError(m)) if m == "timeout"));
    assert!(a.authenticate(ok_reply(r#"{"access_token":"tok"}"#)).is_ok());
    assert_eq!(a.access_token().as_deref(), Some("tok"));
    let b = QQBotAdapter::new(config(Some("http://localhost:9")));
    assert_eq!(b.auth_url(), "http://localhost:9/app/getAppAccessToken");
}

#[test]
fn gateway_url() {
    let a = QQBotAdapter::new(config(None));
    match a.gateway_url_request() {
        Err(QQBotError::AuthError(m)) => assert_eq!(m, "No access token"),
        _ => panic!(),
    }
    let a = authed();
    let call = a.gateway_url_request().unwrap();
    assert_eq!(call.url, "https://api.sgroup.qq.com/gateway");
    assert_eq!(call.authorization, "QQBot tok");
    assert_eq!(QQBotAdapter::gateway_url(ok_reply(r#"{"url":"wss://gw"}"#)).unwrap(), "wss://gw");
    match QQBotAdapter::gateway_url(ok_reply(r#"{"other":1}"#)) {
        Err(QQBotError::WebSocketError(m)) => assert_eq!(m, "No gateway URL in response"),
        _ => panic!(),
    }
}

#[test]
fn hello_starts_heartbeat_and_identifies() {
    let mut a = authed();
    match a.handle_websocket_message(r#"{"op":10,"d":{"heartbeat_interval":41250}}"#).unwrap() {
        WsOutcome::Hello { interval_ms, identify } => {
            assert_eq!(interval_ms, 41250);
            assert_json(
                &identify,
                r#"{"op":2,"d":{"token":"QQBot tok","intents":1107300864,"shard":[0,1],
                    "properties":{"$os":"linux","$browser":"hermes-hybrid","$device":"hermes-hybrid"}}}"#,
            );
        }
        _ => panic!(),
    }
    match a.handle_websocket_message(r#"{"op":10,"d":{}}"#).unwrap() {
        WsOutcome::Hello { interval_ms, .. } => assert_eq!(interval_ms, 30000),
        _ => panic!(),
    }
    let mut fresh = QQBotAdapter::new(config(None));
    match fresh.handle_websocket_message(r#"{"op":10,"d":{}}"#) {
        Err(QQBotError::AuthError(m)) => assert_eq!(m, "No access token"),
        _ => panic!(),
    }
}

#[test]
fn intents_value() {
    assert_eq!((1u64 << 25) | (1u64 << 30) | (1u64 << 12) | (1u64 << 9), 1107300864);
}

#[test]
fn sequence_and_heartbeat() {
    let mut a = authed();
    assert_json(&a.heartbeat_payload(), r#"{"op":1,"d":null}"#);
    assert!(matches!(a.handle_websocket_message(r#"{"op":11,"s":42}"#), Ok(WsOutcome::Nothing)));
    assert_eq!(a.last_sequence(), Some(42));
    assert_json(&a.heartbeat_payload(), r#"{"op":1,"d":42}"#);
    assert!(matches!(a.handle_websocket_message(r#"{"op":11}"#), Ok(WsOutcome::Nothing)));
    assert_eq!(a.last_sequence(), Some(42));
    let _ = a.handle_websocket_message(r#"{"op":0,"s":-3,"t":"X","d":{}}"#);
    assert_json(&a.heartbeat_payload(), r#"{"op":1,"d":-3}"#);
}

#[test]
fn ready_records_session() {
    let mut a = authed();
    assert!(a.gateway_session_id().is_none());
    assert!(matches!(
        a.handle_websocket_message(r#"{"op":0,"s":1,"t":"READY","d":{"session_id":"sess-1"}}"#),
        Ok(WsOutcome::Nothing)
    ));
    assert_eq!(a.gateway_session_id().as_deref(), Some("sess-1"));
}

#[test]
fn reconnect_and_parse_errors() {
    let mut a = authed();
    for text in [r#"{"op":7}"#, r#"{"op":9}"#] {
        match a.handle_websocket_message(text) {
            Err(QQBotError::WebSocketError(m)) => assert_eq!(m, "Reconnect requested"),
            _ => panic!(),
        }
    }
    assert!(matches!(a.handle_websocket_message("{broken"), Err(QQBotError::ParseError(_))));
    assert!(matches!(a.handle_websocket_message(r#"{"op":99}"#), Ok(WsOutcome::Nothing)));
    assert!(matches!(a.handle_websocket_message(r#"{"op":0,"t":"GUILD_CREATE","d":{}}"#), Ok(WsOutcome::Nothing)));
}

#[test]
fn message_event_reads_dispatch_payload() {
    // The fields are read from the dispatch's `d` member.
    let mut a = authed();
    let text = r#"{"op":0,"s":5,"t":"C2C_MESSAGE_CREATE","d":{
        "author":{"id":"U1"},"content":"hello","message_reference":{"message_id":"M0"},
        "attachments":[{"url":"https://x/1.png","content_type":"image/png","filename":"1.png"},{"nourl":1},{"url":"https://x/2"}]}}"#;
    match a.handle_websocket_message(text).unwrap() {
        WsOutcome::Inbound(m) => {
            assert_eq!(m.platform, "qqbot");
            assert_eq!(m.chat_id, "U1");
            assert_eq!(m.user_id, "U1");
            assert_eq!(m.text, "hello");
            assert_eq!(m.reply_to_message_id.as_deref(), Some("M0"));
            assert_eq!(m.attachments.len(), 2);
            assert_eq!(m.attachments[0].mime_type, "image/png");
            assert_eq!(m.attachments[0].filename.as_deref(), Some("1.png"));
            assert_eq!(m.attachments[1].url, "https://x/2");
            assert_eq!(m.attachments[1].mime_type, "application/octet-stream");
            assert!(m.attachments[1].filename.is_none());
        }
        _ => panic!(),
    }
    let c2c = r#"{"op":0,"t":"C2C_MESSAGE_CREATE","d":{"author":{"id":"u1"},"content":"hello"}}"#;
    match a.handle_websocket_message(c2c).unwrap() {
        WsOutcome::Inbound(m) => {
            assert_eq!(m.platform, "qqbot");
            assert_eq!(m.chat_id, "u1");
            assert_eq!(m.user_id, "u1");
            assert_eq!(m.text, "hello");
            assert!(m.attachments.is_empty());
            assert!(m.reply_to_message_id.is_none());
        }
        _ => panic!(),
    }
    // Without an author nor a guild, no chat is found.
    match a.handle_websocket_message(r#"{"op":0,"t":"GROUP_AT_MESSAGE_CREATE","d":{"content":"hi"}}"#) {
        Err(QQBotError::ParseError(m)) => assert_eq!(m, "No chat_id"),
        _ => panic!(),
    }
    match message_event(&js(r#"{"guild_id":"G"}"#)) {
        Err(QQBotError::ParseError(m)) => assert_eq!(m, "No user_id"),
        _ => panic!(),
    }
    let m = message_event(&js(r#"{"author":{"id":"A"}}"#)).unwrap();
    assert_eq!(m.text, "");
    assert!(m.attachments.is_empty());
    assert!(m.reply_to_message_id.is_none());
}

#[test]
fn outbound_messages() {
    let a = authed();
    let plain = OutboundMessage { platform: "qqbot".into(), chat_id: "U1".into(), text: "hi".into(), is_streaming: false, metadata: None };
    let call = a.send_message(&plain).unwrap();
    assert_eq!(call.url, "https://api.sgroup.qq.com/v2/users/U1/messages");
    assert_eq!(call.authorization, "QQBot tok");
    assert_json(&call.body, r#"{"content":"hi","msg_type":0}"#);
    let streaming = OutboundMessage { is_streaming: true, ..plain };
    let call = a.send_message(&streaming).unwrap();
    let body = to_serde(&call.body);
    assert_eq!(body["content"], "hi");
    assert_eq!(body["msg_type"], 0);
    let id = body["msg_id"].as_str().unwrap().to_string();
    assert_eq!(id.len(), 36);
    for (i, c) in id.chars().enumerate() {
        if [8, 13, 18, 23].contains(&i) {
            assert_eq!(c, '-');
        } else {
            assert!(c.is_ascii_digit() || ('a'..='f').contains(&c));
        }
    }
    assert_eq!(id.chars().nth(14), Some('4'));
    assert!(matches!(id.chars().nth(19), Some('8' | '9' | 'a' | 'b')));
    let call2 = a.send_message(&streaming).unwrap();
    assert_ne!(to_serde(&call2.body)["msg_id"].as_str().unwrap(), id);
    let fixed = a.send_message_with_id(&streaming, "ID".into()).unwrap();
    assert_json(&fixed.body, r#"{"content":"hi","msg_type":0,"msg_id":"ID"}"#);
    let fresh = QQBotAdapter::new(config(None));
    assert!(matches!(fresh.send_message(&streaming), Err(QQBotError::AuthError(_))));
}

#[test]
fn send_results() {
    assert!(send_result(ok_reply("")).is_ok());
    match send_result(HttpReply::Received { success: false, status: "400 Bad Request".into(), body: "bad".into() }) {
        Err(QQBotError::SendError(m)) => assert_eq!(m, "Failed to send message: 400 Bad Request - bad"),
        _ => panic!(),
    }
    assert!(matches!(send_result(HttpReply::Failed("x".into())), Err(QQBotError::HttpError(_))));
}

#[test]
fn connection_loop_steps() {
    let mut a = authed();
    match a.on_ws_event(WsEvent::Text(r#"{"op":10,"d":{"heartbeat_interval":1000}}"#.into())) {
        LoopStep::StartHeartbeat { interval_ms, identify } => {
            assert_eq!(interval_ms, 1000);
            // Compact JSON text, members in serde_json's (sorted) order.
            assert_eq!(
                identify,
                r#"{"d":{"intents":1107300864,"properties":{"$browser":"hermes-hybrid","$device":"hermes-hybrid","$os":"linux"},"shard":[0,1],"token":"QQBot tok"},"op":2}"#
            );
        }
        _ => panic!(),
    }
    assert!(matches!(a.on_ws_event(WsEvent::Ping(vec![1, 2])), LoopStep::Pong(d) if d == vec![1, 2]));
    assert!(matches!(a.on_ws_event(WsEvent::Close), LoopStep::Stop));
    assert!(matches!(a.on_ws_event(WsEvent::Failed("e".into())), LoopStep::Stop));
    assert!(matches!(a.on_ws_event(WsEvent::Ended), LoopStep::Stop));
    assert!(matches!(a.on_ws_event(WsEvent::Other), LoopStep::Continue));
    assert!(matches!(a.on_ws_event(WsEvent::Text("oops".into())), LoopStep::Report(QQBotError::ParseError(_))));
    let _ = a.on_ws_event(WsEvent::Text(r#"{"op":11,"s":8}"#.into()));
    match a.on_ws_event(WsEvent::HeartbeatTick) {
        LoopStep::SendHeartbeat(h) => assert_eq!(h, r#"{"d":8,"op":1}"#),
        _ => panic!(),
    }
}

#[test]
fn reconnect_backoff() {
    assert_eq!(reconnect_delay_secs(0), 5);
    assert_eq!(reconnect_delay_secs(1), 10);
    assert_eq!(reconnect_delay_secs(2), 20);
    assert_eq!(reconnect_delay_secs(3), 40);
    assert_eq!(reconnect_delay_secs(5), 160);
    assert_eq!(reconnect_delay_secs(6), 300);
    assert_eq!(reconnect_delay_secs(u32::MAX), 300);
    assert_eq!(next_failure_count(0, true), 1);
    assert_eq!(next_failure_count(4, true), 5);
    assert_eq!(next_failure_count(4, false), 0);
    assert_eq!(next_failure_count(u32::MAX, true), u32::MAX);
}

#[test]
fn error_messages() {
    assert_eq!(QQBotError::HttpError("a".into()).message(), "HTTP error: a");
    assert_eq!(QQBotError::WebSocketError("a".into()).message(), "WebSocket error: a");
    assert_eq!(QQBotError::AuthError("a".into()).message(), "Authentication error: a");
    assert_eq!(QQBotError::ParseError("a".into()).message(), "Parse error: a");
    assert_eq!(QQBotError::SendError("a".into()).message(), "Send error: a");
    assert_eq!(QQBotError::InternalError("a".into()).message(), "Internal error: a");
}
