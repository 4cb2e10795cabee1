use hermes_gateway::http::{found_session, health_body, message_accepted_body, session_status_body, ApiError};
use hermes_gateway::router::RouterError;
use hermes_gateway::json::{JsonNumber, JsonValue};


fn from_serde(v: serde_json::Value) -> JsonValue {
    match v {
        serde_json::Value::Null => JsonValue::Null,
        serde_json::Value::Bool(b) => JsonValue::Bool(b),
        serde_json::Value::Number(n) => {
            if let Some(u) = n.as_u64() {
                JsonValue::Number(JsonNumber::PosInt(u))
            } else if let Some(i) = n.as_i64() {
                JsonValue::Number(JsonNumber::NegInt(i))
            } else {
                JsonValue::Number(JsonNumber::Float(n.to_string()))
            }
        }
        serde_json::Value::String(s) => JsonValue::Str(s),
        serde_json::Value::Array(a) => JsonValue::Array(a.into_iter().map(from_serde).collect()),
        serde_json::Value::Object(m) => {
            JsonValue::Object(m.into_iter().map(|(k, x)| (k, from_serde(x))).collect())
        }
    }
}

fn to_serde(v: &JsonValue) -> serde_json::Value {
    match v {
        JsonValue::Null => serde_json::Value::Null,
        JsonValue::Bool(b) => serde_json::Value::Bool(*b),
        JsonValue::Number(JsonNumber::PosInt(u)) => serde_json::Value::from(*u),
        JsonValue::Number(JsonNumber::NegInt(i)) => serde_json::Value::from(*i),
        JsonValue::Number(JsonNumber::Float(t)) => {
            serde_json::Value::from(t.parse::<f64>().unwrap())
        }
        JsonValue::Str(s) => serde_json::Value::String(s.clone()),
        JsonValue::Array(a) => serde_json::Value::Array(a.iter().map(to_serde).collect()),
        JsonValue::Object(m) => {
            let mut map = serde_json::Map::new();
            for (k, x) in m {
                map.insert(k.clone(), to_serde(x));
            }
            serde_json::Value::Object(map)
        }
    }
}

fn js(text: &str) -> JsonValue {
    from_serde(serde_json::from_str(text).unwrap())
}

fn assert_json(v: &JsonValue, expected: &str) {
    let e: serde_json::Value = serde_json::from_str(expected).unwrap();
    assert_eq!(to_serde(v), e);
}

#[test]
fn bodies() {
    assert_json(&health_body(), r#"{"status":"ok","service":"hermes-gateway"}"#);
    assert_json(&message_accepted_body("test", "123"), r#"{"status":"processing","session_id":"test_123"}"#);
    assert_json(&session_status_body("interrupted", "a_b"), r#"{"status":"interrupted","session_id":"a_b"}"#);
    assert_json(&session_status_body("ended", "a_b"), r#"{"status":"ended","session_id":"a_b"}"#);
}

#[test]
fn api_errors() {
    let (status, body) = ApiError::NotFound.into_response();
    assert_eq!(status, 404);
    assert_json(&body, r#"{"error":"Not found"}"#);
    let (status, body) = ApiError::from_router(RouterError::AgentBridgeError("x".into())).into_response();
    assert_eq!(status, 500);
    assert_json(&body, r#"{"error":"Agent bridge error: x"}"#);
    let (status, body) = ApiError::Internal("boom".into()).into_response();
    assert_eq!(status, 500);
    assert_json(&body, r#"{"error":"boom"}"#);
    assert_eq!(ApiError::NotFound.message(), "Not found");
    assert_eq!(ApiError::Internal("boom".into()).message(), "Internal server error: boom");
    assert_eq!(
        ApiError::RouterError(RouterError::SessionError("s".into())).message(),
        "Router error: Session error: s"
    );
    assert!(matches!(found_session(None), Err(ApiError::NotFound)));
}
