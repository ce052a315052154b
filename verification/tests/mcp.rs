use serde_json::Value;

use palingenesis::mcp::protocol::{
    process_incoming, ErrorCode, Incoming, JsonRpcError, JsonRpcHandler, JsonRpcRequest, Outgoing,
};

struct TestHandler;

impl JsonRpcHandler for TestHandler {
    fn handle(&self, method: &str, _params: Option<Value>) -> Result<Value, JsonRpcError> {
        match method {
            "initialize" => Ok(serde_json::from_str(r#"{"protocolVersion":"2024-11-05"}"#).unwrap()),
            "tools/list" => Ok(serde_json::from_str(r#"{"tools":[]}"#).unwrap()),
            "tools/call" => Ok(serde_json::from_str(r#"{"content":[]}"#).unwrap()),
            _ => Err(JsonRpcError::method_not_found()),
        }
    }
}

fn request_of(value: Value) -> Option<JsonRpcRequest> {
    let object = value.as_object()?;
    let jsonrpc = object.get("jsonrpc")?.as_str()?.to_string();
    let method = object.get("method")?.as_str()?.to_string();
    let params = object.get("params").cloned().filter(|v| !v.is_null());
    let id = object.get("id").cloned().filter(|v| !v.is_null());
    Some(JsonRpcRequest { jsonrpc, method, params, id })
}

fn incoming(input: &str) -> Incoming {
    match serde_json::from_str::<Value>(input) {
        Err(_) => Incoming::Unparsable,
        Ok(Value::Array(items)) => Incoming::Batch(items.into_iter().map(request_of).collect()),
        Ok(other) => Incoming::Single(request_of(other)),
    }
}

fn process_input(input: &str) -> Outgoing {
    process_incoming(&TestHandler, incoming(input))
}

fn single(out: Outgoing) -> palingenesis::mcp::protocol::JsonRpcResponse {
    match out {
        Outgoing::Single(r) => r,
        other => panic!("expected one response, got {other:?}"),
    }
}

#[test]
fn test_request_with_id_returns_response() {
    let response = single(process_input(r#"{"jsonrpc":"2.0","method":"initialize","id":1}"#));
    assert_eq!(response.id, Some(Value::from(1)));
    assert_eq!(response.jsonrpc, "2.0");
    assert!(response.result.is_some());
}

#[test]
fn test_invalid_method_returns_method_not_found() {
    let response = single(process_input(r#"{"jsonrpc":"2.0","method":"unknown","id":"abc"}"#));
    assert_eq!(response.error.unwrap().code, -32601);
    assert_eq!(response.id, Some(Value::from("abc")));
}

#[test]
fn test_notification_returns_no_response() {
    assert!(matches!(process_input(r#"{"jsonrpc":"2.0","method":"initialize"}"#), Outgoing::Nothing));
}

#[test]
fn test_batch_request_returns_batch_response() {
    let out = process_input(
        r#"[{"jsonrpc":"2.0","method":"initialize","id":1},{"jsonrpc":"2.0","method":"tools/list","id":2}]"#,
    );
    match out {
        Outgoing::Batch(responses) => {
            assert_eq!(responses.len(), 2);
            assert_eq!(responses[0].id, Some(Value::from(1)));
            assert_eq!(responses[1].id, Some(Value::from(2)));
        }
        other => panic!("expected a batch, got {other:?}"),
    }
}

#[test]
fn test_responses_include_jsonrpc_version() {
    let response = single(process_input(r#"{"jsonrpc":"2.0","method":"tools/list","id":99}"#));
    assert_eq!(response.jsonrpc, "2.0");
}

#[test]
fn test_parse_error_on_invalid_json() {
    let response = single(process_input(r#"{not valid json}"#));
    assert_eq!(response.error.unwrap().code, -32700);
    assert_eq!(response.id, None);
}

#[test]
fn test_invalid_jsonrpc_version_rejected() {
    let response = single(process_input(r#"{"jsonrpc":"1.0","method":"initialize","id":1}"#));
    assert_eq!(response.error.unwrap().code, -32600);
}

#[test]
fn test_empty_batch_returns_invalid_request() {
    let response = single(process_input(r#"[]"#));
    assert_eq!(response.error.unwrap().code, -32600);
}

#[test]
fn test_batch_with_only_notifications_returns_none() {
    let out = process_input(
        r#"[{"jsonrpc":"2.0","method":"initialize"},{"jsonrpc":"2.0","method":"tools/list"}]"#,
    );
    assert!(matches!(out, Outgoing::Nothing));
}

#[test]
fn test_empty_method_rejected() {
    let response = single(process_input(r#"{"jsonrpc":"2.0","method":"","id":1}"#));
    assert_eq!(response.error.unwrap().code, -32600);
}

#[test]
fn test_whitespace_only_method_rejected() {
    let response = single(process_input(r#"{"jsonrpc":"2.0","method":"   ","id":1}"#));
    assert_eq!(response.error.unwrap().code, -32600);
}

#[test]
fn batch_answers_invalid_items_and_skips_notifications() {
    let out = process_input(r#"[{"jsonrpc":"2.0","method":"tools/list"},7,{"jsonrpc":"2.0","method":"x","id":3}]"#);
    match out {
        Outgoing::Batch(responses) => {
            assert_eq!(responses.len(), 2);
            assert_eq!(responses[0].id, None);
            assert_eq!(responses[0].error.as_ref().unwrap().code, -32600);
            assert_eq!(responses[1].error.as_ref().unwrap().code, -32601);
            assert_eq!(responses[1].id, Some(Value::from(3)));
        }
        other => panic!("expected a batch, got {other:?}"),
    }
}

#[test]
fn error_codes_and_messages() {
    assert_eq!(ErrorCode::ParseError.code(), -32700);
    assert_eq!(ErrorCode::InvalidParams.code(), -32602);
    assert_eq!(ErrorCode::InternalError.message(), "Internal error");
    assert_eq!(ErrorCode::InvalidRequest.message(), "Invalid Request");
    let e = JsonRpcError::invalid_params();
    assert_eq!(e.code, -32602);
    assert_eq!(e.message, "Invalid params");
}
