use hermes_gateway::agent_bridge::types::{MessageMetadata, PingResponse};
use hermes_gateway::json::{JsonNumber, JsonValue};
use hermes_gateway::text::{join_str, i64_to_decimal, starts_with, str_eq, u64_to_decimal};
use hermes_gateway::table::{table_get, table_insert, table_remove};


fn from_serde(v: serde_json::Value) -> JsonValue {
    match v {
        serde_json::Value::Null => JsonValue::Null,
        serde_json::Value::Bool(b) => JsonValue::Bool(b),
        serde_json::Value::Number(n) => {
            if let Some(u) = n.as_u64() {
                JsonValue::Number(JsonNumber::PosInt(u))
            } else if let Some(i) = n.as_i64() {
                JsonValue::Number(JsonNumber::NegInt(i))
            } else {
                JsonValue::Number(JsonNumber::Float(n.to_string()))
            }
        }
        serde_json::Value::String(s) => JsonValue::Str(s),
        serde_json::Value::Array(a) => JsonValue::Array(a.into_iter().map(from_serde).collect()),
        serde_json::Value::Object(m) => {
            JsonValue::Object(m.into_iter().map(|(k, x)| (k, from_serde(x))).collect())
        }
    }
}

fn to_serde(v: &JsonValue) -> serde_json::Value {
    match v {
        JsonValue::Null => serde_json::Value::Null,
        JsonValue::Bool(b) => serde_json::Value::Bool(*b),
        JsonValue::Number(JsonNumber::PosInt(u)) => serde_json::Value::from(*u),
        JsonValue::Number(JsonNumber::NegInt(i)) => serde_json::Value::from(*i),
        JsonValue::Number(JsonNumber::Float(t)) => {
            serde_json::Value::from(t.parse::<f64>().unwrap())
        }
        JsonValue::Str(s) => serde_json::Value::String(s.clone()),
        JsonValue::Array(a) => serde_json::Value::Array(a.iter().map(to_serde).collect()),
        JsonValue::Object(m) => {
            let mut map = serde_json::Map::new();
            for (k, x) in m {
                map.insert(k.clone(), to_serde(x));
            }
            serde_json::Value::Object(map)
        }
    }
}

fn js(text: &str) -> JsonValue {
    from_serde(serde_json::from_str(text).unwrap())
}

fn assert_json(v: &JsonValue, expected: &str) {
    let e: serde_json::Value = serde_json::from_str(expected).unwrap();
    assert_eq!(to_serde(v), e);
}

#[test]
fn decimal_rendering() {
    assert_eq!(u64_to_decimal(0), "0");
    assert_eq!(u64_to_decimal(300), "300");
    assert_eq!(u64_to_decimal(u64::MAX), "18446744073709551615");
    assert_eq!(i64_to_decimal(-40004), "-40004");
    assert_eq!(i64_to_decimal(i64::MIN), "-9223372036854775808");
    assert_eq!(i64_to_decimal(7), "7");
}

#[test]
fn text_helpers() {
    assert!(str_eq("abc", "abc"));
    assert!(!str_eq("abc", "abd"));
    assert!(!str_eq("ab", "abc"));
    assert!(starts_with("image/png", "image/"));
    assert!(!starts_with("ima", "image/"));
    assert!(starts_with("你好世界", "你好"));
    assert_eq!(join_str("a", "é"), "aé");
}

#[test]
fn json_access() {
    let v = js(r#"{"a":"x","b":true,"n":5,"neg":-2,"big":18446744073709551615,"f":1.5,"arr":[1,2],"o":{"k":null}}"#);
    assert_eq!(v.str_at("a").as_deref(), Some("x"));
    assert_eq!(v.str_at("b"), None);
    assert_eq!(v.bool_at("b"), Some(true));
    assert_eq!(v.u64_at("n"), Some(5));
    assert_eq!(v.u64_at("neg"), None);
    assert_eq!(v.i64_at("neg"), Some(-2));
    assert_eq!(v.i64_at("big"), None);
    assert_eq!(v.u64_at("f"), None);
    assert_eq!(v.i64_at("f"), None);
    assert_eq!(v.as_array().map(|a| a.len()), None);
    assert_eq!(v.get("arr").unwrap().as_array().unwrap().len(), 2);
    assert!(v.get("missing").is_none());
    assert!(matches!(v.index_clone("missing"), JsonValue::Null));
    assert!(v.field_opt("o").is_some());
    assert!(v.get("o").unwrap().field_opt("k").is_none());
    assert_json(&v.clone_value(), r#"{"a":"x","b":true,"n":5,"neg":-2,"big":18446744073709551615,"f":1.5,"arr":[1,2],"o":{"k":null}}"#);
    assert!(JsonValue::Null.get("a").is_none());
}

#[test]
fn first_member_wins() {
    let v = JsonValue::Object(vec![
        ("k".to_string(), JsonValue::Bool(true)),
        ("k".to_string(), JsonValue::Bool(false)),
    ]);
    assert_eq!(v.bool_at("k"), Some(true));
}

fn ping_err(text: &str) -> String {
    PingResponse::from_json(&js(text)).err().unwrap()
}

#[test]
fn record_errors_read_as_serde_json_reports_them() {
    assert_eq!(ping_err(r#"{"status":1,"sessions":2}"#), "invalid type: integer `1`, expected a string");
    assert_eq!(ping_err(r#"{"status":"a","sessions":-2}"#), "invalid value: integer `-2`, expected u32");
    assert_eq!(ping_err(r#"{"status":"a","sessions":5000000000}"#), "invalid value: integer `5000000000`, expected u32");
    assert_eq!(ping_err(r#"{"status":"a","sessions":1.5}"#), "invalid type: floating point `1.5`, expected u32");
    assert_eq!(ping_err(r#"{"status":"a"}"#), "missing field `sessions`");
    assert_eq!(ping_err(r#"{}"#), "missing field `status`");
    assert_eq!(ping_err(r#""x""#), "invalid type: string \"x\", expected struct PingResponse");
    assert_eq!(ping_err("null"), "invalid type: null, expected struct PingResponse");
    assert_eq!(ping_err("true"), "invalid type: boolean `true`, expected struct PingResponse");
    assert_eq!(ping_err(r#"["alive"]"#), "invalid length 1, expected struct PingResponse with 2 elements");
    assert_eq!(ping_err(r#"["alive", 3, 4]"#), "invalid length 3, expected fewer elements in array");
    assert_eq!(ping_err(r#"{"status":false,"sessions":1}"#), "invalid type: boolean `false`, expected a string");
    assert_eq!(ping_err(r#"{"status":[1],"sessions":1}"#), "invalid type: sequence, expected a string");
    assert_eq!(ping_err(r#"{"status":{},"sessions":1}"#), "invalid type: map, expected a string");
    assert_eq!(ping_err(r#"{"status":"a","sessions":"q\"\n"}"#), "invalid type: string \"q\\\"\\n\", expected u32");
    // Members are read in the order serde_json's map holds them (sorted).
    assert_eq!(ping_err(r#"{"status":true,"sessions":"x"}"#), "invalid type: string \"x\", expected u32");
    // A repeated field is refused.
    let dup = JsonValue::Object(vec![
        ("status".to_string(), JsonValue::Str("a".to_string())),
        ("status".to_string(), JsonValue::Str("b".to_string())),
    ]);
    assert_eq!(PingResponse::from_json(&dup).err().unwrap(), "duplicate field `status`");
}

#[test]
fn records_read_from_objects_and_arrays() {
    let p = PingResponse::from_json(&js(r#"{"status":"alive","sessions":3,"extra":true}"#)).ok().unwrap();
    assert_eq!((p.status.as_str(), p.sessions), ("alive", 3));
    let p = PingResponse::from_json(&js(r#"["alive", 4]"#)).ok().unwrap();
    assert_eq!((p.status.as_str(), p.sessions), ("alive", 4));
    let m = MessageMetadata::from_json(&js(
        r#"{"model":"m","provider":"p","total_time_ms":7,"tool_count":1,"tokens":{"input":2,"output":3}}"#,
    ))
    .ok()
    .unwrap();
    assert_eq!(m.ttft_ms, None);
    assert_eq!((m.tokens.input, m.tokens.output), (2, 3));
    let e = MessageMetadata::from_json(&js(
        r#"{"model":"m","provider":"p","total_time_ms":7,"tool_count":1,"tokens":[2]}"#,
    ))
    .err()
    .unwrap();
    assert_eq!(e, "invalid length 1, expected struct TokenUsage with 2 elements");
}

#[test]
fn table_operations() {
    let mut t: Vec<(String, u32)> = Vec::new();
    table_insert(&mut t, "a".into(), 1);
    table_insert(&mut t, "b".into(), 2);
    table_insert(&mut t, "a".into(), 3);
    assert_eq!(t.len(), 2);
    assert_eq!(table_get(&t, "a"), Some(&3));
    table_remove(&mut t, "a");
    assert_eq!(table_get(&t, "a"), None);
    assert_eq!(table_get(&t, "b"), Some(&2));
    table_remove(&mut t, "zz");
    assert_eq!(t.len(), 1);
}
