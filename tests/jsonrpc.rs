use polygon_mcp::jsonrpc::{message_from_json, INVALID_PARAMS, PARSE_ERROR};
use polygon_mcp::{JsonRpcErrorResponse, JsonRpcMessage, JsonValue, RequestId};

fn to_json(v: serde_json::Value) -> JsonValue {
    match v {
        serde_json::Value::Null => JsonValue::Null,
        serde_json::Value::Bool(b) => JsonValue::Bool(b),
        serde_json::Value::Number(n) => {
            if let Some(i) = n.as_i64() {
                JsonValue::Int(i)
            } else if let Some(u) = n.as_u64() {
                JsonValue::UInt(u)
            } else {
                JsonValue::Decimal(n.to_string())
            }
        }
        serde_json::Value::String(s) => JsonValue::Str(s),
        serde_json::Value::Array(a) => JsonValue::Array(a.into_iter().map(to_json).collect()),
        serde_json::Value::Object(o) => JsonValue::Object(o.into_iter().map(|(k, v)| (k, to_json(v))).collect()),
    }
}

fn parse_message(line: &str) -> Result<JsonRpcMessage, JsonRpcErrorResponse> {
    match serde_json::from_str::<serde_json::Value>(line) {
        Ok(v) => message_from_json(to_json(v)),
        Err(e) => Err(JsonRpcErrorResponse::parse_error(e.to_string())),
    }
}

#[test]
fn parses_valid_request() {
    let json = r#"{"jsonrpc":"2.0","id":1,"method":"ping"}"#;
    let msg = parse_message(json).unwrap();
    match msg {
        JsonRpcMessage::Request(req) => {
            assert_eq!(req.method, "ping");
            assert_eq!(req.id, RequestId::Number(1));
        }
        _ => panic!("Expected Request"),
    }
}

#[test]
fn parses_string_id() {
    let json = r#"{"jsonrpc":"2.0","id":"abc-123","method":"test"}"#;
    let msg = parse_message(json).unwrap();
    match msg {
        JsonRpcMessage::Request(req) => {
            assert_eq!(req.id, RequestId::String("abc-123".to_string()));
        }
        _ => panic!("Expected Request"),
    }
}

#[test]
fn parses_notification() {
    let json = r#"{"jsonrpc":"2.0","method":"notifications/initialized"}"#;
    let msg = parse_message(json).unwrap();
    assert!(matches!(msg, JsonRpcMessage::Notification(_)));
}

#[test]
fn rejects_malformed_json() {
    let result = parse_message("{not valid json");
    assert!(result.is_err());
    let err = result.unwrap_err();
    assert_eq!(err.error.code, PARSE_ERROR);
    assert!(err.id.is_none());
}

#[test]
fn ping_without_id_is_a_notification() {
    let msg = parse_message(r#"{"jsonrpc":"2.0","method":"ping"}"#).unwrap();
    match msg {
        JsonRpcMessage::Notification(n) => assert_eq!(n.method, "ping"),
        _ => panic!("Expected Notification"),
    }
}

#[test]
fn params_are_kept_and_null_params_dropped() {
    let msg = parse_message(r#"{"jsonrpc":"2.0","id":2,"method":"m","params":{"a":[1,2.5,true]}}"#).unwrap();
    match msg {
        JsonRpcMessage::Request(req) => match req.params {
            Some(JsonValue::Object(fields)) => {
                assert_eq!(fields[0].0, "a");
                match &fields[0].1 {
                    JsonValue::Array(items) => {
                        assert!(matches!(items[0], JsonValue::Int(1)));
                        assert!(matches!(&items[1], JsonValue::Decimal(d) if d == "2.5"));
                        assert!(matches!(items[2], JsonValue::Bool(true)));
                    }
                    other => panic!("unexpected {:?}", other),
                }
            }
            other => panic!("unexpected {:?}", other),
        },
        _ => panic!("Expected Request"),
    }
    let msg = parse_message(r#"{"jsonrpc":"2.0","id":3,"method":"m","params":null}"#).unwrap();
    assert!(matches!(msg, JsonRpcMessage::Request(r) if r.params.is_none()));
}

#[test]
fn malformed_envelopes_are_parse_errors() {
    for line in [
        "[1,2]",
        r#"{"id":1,"method":"ping"}"#,
        r#"{"jsonrpc":"2.0","id":1}"#,
        r#"{"jsonrpc":"2.0","id":1.5,"method":"ping"}"#,
        r#"{"jsonrpc":2,"id":1,"method":"ping"}"#,
    ] {
        let err = parse_message(line).unwrap_err();
        assert_eq!(err.error.code, PARSE_ERROR);
        assert!(err.id.is_none());
    }
}

#[test]
fn error_constructors_carry_codes() {
    let e = JsonRpcErrorResponse::method_not_found(RequestId::Number(9), "x/y");
    assert_eq!(e.error.code, -32601);
    assert_eq!(e.error.message, "Method not found: x/y");
    assert_eq!(e.id, Some(RequestId::Number(9)));
    let e = JsonRpcErrorResponse::invalid_params(RequestId::Number(1), "bad".to_string());
    assert_eq!(e.error.code, INVALID_PARAMS);
    let e = JsonRpcErrorResponse::internal_error(RequestId::Number(1), "boom".to_string());
    assert_eq!(e.error.code, -32603);
    let e = JsonRpcErrorResponse::invalid_request(None, "v".to_string());
    assert_eq!(e.error.code, -32600);
    assert_eq!(e.jsonrpc, "2.0");
}
