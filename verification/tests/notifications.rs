use hermes_gateway::agent_bridge::protocol::JsonRpcNotification;
use hermes_gateway::agent_bridge::types::{AgentNotification, MessageMetadata};
use hermes_gateway::error::GatewayError;
use hermes_gateway::json::{JsonNumber, JsonValue};


fn from_serde(v: serde_json::Value) -> JsonValue {
    match v {
        serde_json::Value::Null => JsonValue::Null,
        serde_json::Value::Bool(b) => JsonValue::Bool(b),
        serde_json::Value::Number(n) => {
            if let Some(u) = n.as_u64() {
                JsonValue::Number(JsonNumber::PosInt(u))
            } else if let Some(i) = n.as_i64() {
                JsonValue::Number(JsonNumber::NegInt(i))
            } else {
                JsonValue::Number(JsonNumber::Float(n.to_string()))
            }
        }
        serde_json::Value::String(s) => JsonValue::Str(s),
        serde_json::Value::Array(a) => JsonValue::Array(a.into_iter().map(from_serde).collect()),
        serde_json::Value::Object(m) => {
            JsonValue::Object(m.into_iter().map(|(k, x)| (k, from_serde(x))).collect())
        }
    }
}

fn to_serde(v: &JsonValue) -> serde_json::Value {
    match v {
        JsonValue::Null => serde_json::Value::Null,
        JsonValue::Bool(b) => serde_json::Value::Bool(*b),
        JsonValue::Number(JsonNumber::PosInt(u)) => serde_json::Value::from(*u),
        JsonValue::Number(JsonNumber::NegInt(i)) => serde_json::Value::from(*i),
        JsonValue::Number(JsonNumber::Float(t)) => {
            serde_json::Value::from(t.parse::<f64>().unwrap())
        }
        JsonValue::Str(s) => serde_json::Value::String(s.clone()),
        JsonValue::Array(a) => serde_json::Value::Array(a.iter().map(to_serde).collect()),
        JsonValue::Object(m) => {
            let mut map = serde_json::Map::new();
            for (k, x) in m {
                map.insert(k.clone(), to_serde(x));
            }
            serde_json::Value::Object(map)
        }
    }
}

fn js(text: &str) -> JsonValue {
    from_serde(serde_json::from_str(text).unwrap())
}

fn assert_json(v: &JsonValue, expected: &str) {
    let e: serde_json::Value = serde_json::from_str(expected).unwrap();
    assert_eq!(to_serde(v), e);
}

fn notif(text: &str) -> JsonRpcNotification {
    JsonRpcNotification::from_json(&js(text)).unwrap()
}

fn decode(text: &str) -> Result<AgentNotification, String> {
    AgentNotification::from_rpc(&notif(text)).map_err(|e| match e {
        GatewayError::Platform(m) => m,
    })
}

#[test]
fn typing_start() {
    match decode(r#"{"jsonrpc":"2.0","method":"typing_start","params":{"session_id":"s","chat_id":"c"}}"#).unwrap() {
        AgentNotification::TypingStart { session_id, chat_id } => {
            assert_eq!(session_id, "s");
            assert_eq!(chat_id, "c");
        }
        _ => panic!(),
    }
}

#[test]
fn stream_chunk_defaults_is_final_to_false() {
    match decode(r#"{"jsonrpc":"2.0","method":"stream_chunk","params":{"session_id":"s","chat_id":"c","text":"x"}}"#)
        .unwrap()
    {
        AgentNotification::StreamChunk { text, is_final, .. } => {
            assert_eq!(text, "x");
            assert!(!is_final);
        }
        _ => panic!(),
    }
    match decode(
        r#"{"jsonrpc":"2.0","method":"stream_chunk","params":{"session_id":"s","chat_id":"c","text":"y","is_final":true}}"#,
    )
    .unwrap()
    {
        AgentNotification::StreamChunk { is_final, .. } => assert!(is_final),
        _ => panic!(),
    }
}

#[test]
fn tool_events() {
    match decode(
        r#"{"jsonrpc":"2.0","method":"tool_started","params":{"session_id":"s","chat_id":"c","tool_name":"web_search","tool_params":{"query":"rust"}}}"#,
    )
    .unwrap()
    {
        AgentNotification::ToolStarted { tool_name, tool_params, .. } => {
            assert_eq!(tool_name, "web_search");
            assert_json(&tool_params, r#"{"query":"rust"}"#);
        }
        _ => panic!(),
    }
    match decode(r#"{"jsonrpc":"2.0","method":"tool_started","params":{"session_id":"s","chat_id":"c","tool_name":"t"}}"#)
        .unwrap()
    {
        AgentNotification::ToolStarted { tool_params, .. } => assert_json(&tool_params, "null"),
        _ => panic!(),
    }
    match decode(
        r#"{"jsonrpc":"2.0","method":"tool_completed","params":{"session_id":"s","chat_id":"c","tool_name":"web_search","success":true,"duration_ms":1200,"result_preview":"5 results"}}"#,
    )
    .unwrap()
    {
        AgentNotification::ToolCompleted { success, duration_ms, result_preview, .. } => {
            assert!(success);
            assert_eq!(duration_ms, 1200);
            assert_eq!(result_preview.as_deref(), Some("5 results"));
        }
        _ => panic!(),
    }
    match decode(r#"{"jsonrpc":"2.0","method":"tool_completed","params":{"session_id":"s","chat_id":"c","tool_name":"t"}}"#)
        .unwrap()
    {
        AgentNotification::ToolCompleted { success, duration_ms, result_preview, .. } => {
            assert!(!success);
            assert_eq!(duration_ms, 0);
            assert!(result_preview.is_none());
        }
        _ => panic!(),
    }
}

#[test]
fn message_complete_with_metadata() {
    let n = r#"{"jsonrpc":"2.0","method":"message_complete","params":{"session_id":"s","chat_id":"c","text":"done",
        "metadata":{"model":"m","provider":"anthropic","ttft_ms":850,"total_time_ms":3200,"tool_count":2,"tokens":{"input":1200,"output":580}}}}"#;
    match decode(n).unwrap() {
        AgentNotification::MessageComplete { text, metadata, .. } => {
            assert_eq!(text, "done");
            assert_eq!(metadata.provider, "anthropic");
            assert_eq!(metadata.ttft_ms, Some(850));
            assert_eq!(metadata.total_time_ms, 3200);
            assert_eq!(metadata.tool_count, 2);
            assert_eq!(metadata.tokens.input, 1200);
            assert_eq!(metadata.tokens.output, 580);
        }
        _ => panic!(),
    }
}

#[test]
fn invalid_metadata_is_reported_first() {
    let n = r#"{"jsonrpc":"2.0","method":"message_complete","params":{"chat_id":"c","text":"done"}}"#;
    assert_eq!(decode(n).err().unwrap(), "Invalid metadata: invalid type: null, expected struct MessageMetadata");
    let n = r#"{"jsonrpc":"2.0","method":"message_complete","params":{"session_id":"s","chat_id":"c","text":"d",
        "metadata":{"model":"m","provider":"p","total_time_ms":1,"tool_count":0}}}"#;
    assert_eq!(decode(n).err().unwrap(), "Invalid metadata: missing field `tokens`");
    let n = r#"{"jsonrpc":"2.0","method":"message_complete","params":{"session_id":"s","chat_id":"c","text":"d",
        "metadata":{"model":"m","provider":"p","total_time_ms":1,"tool_count":0,"tokens":{"input":-1,"output":2}}}}"#;
    assert_eq!(decode(n).err().unwrap(), "Invalid metadata: invalid value: integer `-1`, expected u64");
    let n = r#"{"jsonrpc":"2.0","method":"message_complete","params":{"session_id":"s","chat_id":"c","text":"d",
        "metadata":{"model":"m","provider":"p","total_time_ms":1,"tool_count":0,"ttft_ms":"x","tokens":{"input":1,"output":2}}}}"#;
    assert_eq!(decode(n).err().unwrap(), "Invalid metadata: invalid type: string \"x\", expected u64");
    let m = MessageMetadata::from_json(&js(
        r#"{"model":"m","provider":"p","ttft_ms":null,"total_time_ms":1,"tool_count":0,"tokens":{"input":1,"output":2}}"#,
    ))
    .ok()
    .unwrap();
    assert!(m.ttft_ms.is_none());
}

#[test]
fn error_notification() {
    match decode(
        r#"{"jsonrpc":"2.0","method":"error","params":{"session_id":"s","chat_id":"c","error_type":"rate_limited","message":"slow down","retry_after_secs":30}}"#,
    )
    .unwrap()
    {
        AgentNotification::Error { error_type, message, retry_after_secs, .. } => {
            assert_eq!(error_type, "rate_limited");
            assert_eq!(message, "slow down");
            assert_eq!(retry_after_secs, Some(30));
        }
        _ => panic!(),
    }
    assert_eq!(
        decode(r#"{"jsonrpc":"2.0","method":"error","params":{"session_id":"s","chat_id":"c","error_type":"x"}}"#)
            .err()
            .unwrap(),
        "Missing message"
    );
}

#[test]
fn missing_and_unknown() {
    assert_eq!(
        decode(r#"{"jsonrpc":"2.0","method":"stream_chunk","params":{"session_id":"s","text":"x"}}"#).err().unwrap(),
        "Missing chat_id"
    );
    assert_eq!(
        decode(r#"{"jsonrpc":"2.0","method":"stream_chunk","params":{"session_id":1,"chat_id":"c","text":"x"}}"#)
            .err()
            .unwrap(),
        "Missing session_id"
    );
    assert_eq!(
        decode(r#"{"jsonrpc":"2.0","method":"progress_update","params":{}}"#).err().unwrap(),
        "Unknown notification method: progress_update"
    );
}

#[test]
fn session_of_notification() {
    let n = decode(r#"{"jsonrpc":"2.0","method":"typing_start","params":{"session_id":"qqbot_1","chat_id":"1"}}"#)
        .unwrap();
    assert_eq!(n.session_id(), "qqbot_1");
}
