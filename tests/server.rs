use polygon_mcp::json::get_member;
use polygon_mcp::{
    CallToolResult, Dispatch, JsonRpcNotification, JsonRpcRequest, JsonRpcResponse, JsonValue, McpServer,
    RequestId, ToolDefinition, ToolInputSchema,
};

fn obj(members: Vec<(&str, JsonValue)>) -> JsonValue {
    JsonValue::Object(members.into_iter().map(|(k, v)| (k.to_string(), v)).collect())
}

fn text(s: &str) -> JsonValue {
    JsonValue::Str(s.to_string())
}

fn field<'a>(v: &'a JsonValue, key: &str) -> &'a JsonValue {
    get_member(v, key).unwrap_or_else(|| panic!("missing member {}", key))
}

fn as_text(v: &JsonValue) -> &str {
    match v {
        JsonValue::Str(s) => s,
        other => panic!("not a string: {:?}", other),
    }
}

fn echo_definition() -> ToolDefinition {
    ToolDefinition::new("echo").with_description("Echo the input").with_schema(ToolInputSchema {
        schema_type: "object".to_string(),
        properties: Some(vec![("message".to_string(), obj(vec![("type", text("string"))]))]),
        required: Some(vec!["message".to_string()]),
    })
}

fn echo_tool(arguments: &[(String, JsonValue)]) -> Result<CallToolResult, String> {
    let message = arguments
        .iter()
        .find(|(k, _)| k == "message")
        .and_then(|(_, v)| match v {
            JsonValue::Str(s) => Some(s.as_str()),
            _ => None,
        })
        .unwrap_or("no message");
    Ok(CallToolResult::text(message))
}

fn build_test_server() -> McpServer {
    McpServer::builder("test-server", "0.1.0")
        .description("Test server")
        .tool(echo_definition())
        .build()
}

fn request(id: RequestId, method: &str, params: Option<JsonValue>) -> JsonRpcRequest {
    JsonRpcRequest { jsonrpc: "2.0".to_string(), id, method: method.to_string(), params }
}

fn run(server: &mut McpServer, req: JsonRpcRequest) -> JsonRpcResponse {
    match server.handle_request(req) {
        Dispatch::Reply(r) => r,
        Dispatch::CallTool { id, name, arguments } => {
            assert_eq!(name, "echo");
            McpServer::tool_reply(id, echo_tool(&arguments))
        }
    }
}

#[test]
fn handles_initialize_request() {
    let mut server = build_test_server();

    let params = obj(vec![
        ("protocolVersion", text("2025-11-25")),
        ("capabilities", obj(vec![])),
        ("clientInfo", obj(vec![("name", text("test-client")), ("version", text("1.0.0"))])),
    ]);
    let response = run(&mut server, request(RequestId::Number(1), "initialize", Some(params)));

    match response {
        JsonRpcResponse::Result(res) => {
            assert_eq!(as_text(field(&res.result, "protocolVersion")), "2025-11-25");
            assert_eq!(as_text(field(field(&res.result, "serverInfo"), "name")), "test-server");
            assert!(matches!(field(field(&res.result, "capabilities"), "tools"), JsonValue::Object(_)));
        }
        JsonRpcResponse::Error(e) => panic!("Expected result, got error: {:?}", e),
    }
    assert!(server.initialized());
}

#[test]
fn handles_ping_request() {
    let mut server = build_test_server();

    let response = run(&mut server, request(RequestId::String("ping-1".to_string()), "ping", None));

    match response {
        JsonRpcResponse::Result(res) => {
            assert_eq!(res.id, RequestId::String("ping-1".to_string()));
        }
        JsonRpcResponse::Error(e) => panic!("Expected result, got error: {:?}", e),
    }
}

#[test]
fn handles_tools_list() {
    let mut server = build_test_server();

    let response = run(&mut server, request(RequestId::Number(2), "tools/list", None));

    match response {
        JsonRpcResponse::Result(res) => {
            let tools = match field(&res.result, "tools") {
                JsonValue::Array(t) => t,
                other => panic!("unexpected {:?}", other),
            };
            assert_eq!(tools.len(), 1);
            assert_eq!(as_text(field(&tools[0], "name")), "echo");
            assert_eq!(as_text(field(&tools[0], "description")), "Echo the input");
            assert_eq!(as_text(field(field(&tools[0], "inputSchema"), "type")), "object");
        }
        JsonRpcResponse::Error(e) => panic!("Expected result, got error: {:?}", e),
    }
}

#[test]
fn handles_tools_call() {
    let mut server = build_test_server();

    let params = obj(vec![
        ("name", text("echo")),
        ("arguments", obj(vec![("message", text("Hello, world!"))])),
    ]);
    let response = run(&mut server, request(RequestId::Number(3), "tools/call", Some(params)));

    match response {
        JsonRpcResponse::Result(res) => {
            let content = match field(&res.result, "content") {
                JsonValue::Array(c) => c,
                other => panic!("unexpected {:?}", other),
            };
            assert_eq!(as_text(field(&content[0], "type")), "text");
            assert_eq!(as_text(field(&content[0], "text")), "Hello, world!");
        }
        JsonRpcResponse::Error(e) => panic!("Expected result, got error: {:?}", e),
    }
}

#[test]
fn returns_error_for_unknown_tool() {
    let mut server = build_test_server();

    let params = obj(vec![("name", text("nonexistent")), ("arguments", obj(vec![]))]);
    let response = run(&mut server, request(RequestId::Number(4), "tools/call", Some(params)));

    match response {
        JsonRpcResponse::Error(e) => {
            assert_eq!(e.error.code, -32602);
            assert!(e.error.message.contains("Tool not found"));
            assert!(e.error.message.contains("nonexistent"));
        }
        JsonRpcResponse::Result(_) => panic!("Expected error"),
    }
}

#[test]
fn returns_error_for_unknown_method() {
    let mut server = build_test_server();

    let response = run(&mut server, request(RequestId::Number(5), "unknown/method", None));

    match response {
        JsonRpcResponse::Error(e) => {
            assert_eq!(e.error.code, -32601);
            assert!(e.error.message.contains("Method not found"));
        }
        JsonRpcResponse::Result(_) => panic!("Expected error"),
    }
}

#[test]
fn returns_error_for_invalid_jsonrpc_version() {
    let mut server = build_test_server();

    let req = JsonRpcRequest {
        jsonrpc: "1.0".to_string(),
        id: RequestId::Number(6),
        method: "ping".to_string(),
        params: None,
    };
    let response = run(&mut server, req);

    match response {
        JsonRpcResponse::Error(e) => {
            assert_eq!(e.error.code, -32600);
            assert_eq!(e.id, Some(RequestId::Number(6)));
        }
        JsonRpcResponse::Result(_) => panic!("Expected error"),
    }
}

#[test]
fn tool_failure_is_a_successful_envelope() {
    let response = McpServer::tool_reply(RequestId::Number(7), Err("upstream exploded".to_string()));
    match response {
        JsonRpcResponse::Result(res) => {
            assert!(matches!(field(&res.result, "isError"), JsonValue::Bool(true)));
            let content = match field(&res.result, "content") {
                JsonValue::Array(c) => c,
                other => panic!("unexpected {:?}", other),
            };
            assert_eq!(as_text(field(&content[0], "text")), "upstream exploded");
        }
        JsonRpcResponse::Error(e) => panic!("Expected result, got error: {:?}", e),
    }
}

#[test]
fn initialize_with_bad_params_is_invalid_params() {
    let mut server = build_test_server();
    let response = run(&mut server, request(RequestId::Number(8), "initialize", None));
    assert!(matches!(response, JsonRpcResponse::Error(e) if e.error.code == -32602));
    let response = run(&mut server, request(RequestId::Number(9), "initialize", Some(obj(vec![("protocolVersion", text("x"))]))));
    assert!(matches!(response, JsonRpcResponse::Error(e) if e.error.code == -32602));
    assert!(!server.initialized());
}

#[test]
fn tools_call_with_bad_params_is_invalid_params() {
    let mut server = build_test_server();
    let response = run(&mut server, request(RequestId::Number(10), "tools/call", None));
    assert!(matches!(response, JsonRpcResponse::Error(e) if e.error.code == -32602));
    let bad_args = obj(vec![("name", text("echo")), ("arguments", JsonValue::Int(3))]);
    let response = run(&mut server, request(RequestId::Number(11), "tools/call", Some(bad_args)));
    assert!(matches!(response, JsonRpcResponse::Error(e) if e.error.code == -32602));
}

#[test]
fn tool_call_before_initialized_notification_works() {
    let mut server = build_test_server();
    let params = obj(vec![("name", text("echo"))]);
    let response = run(&mut server, request(RequestId::Number(12), "tools/call", Some(params)));
    match response {
        JsonRpcResponse::Result(res) => {
            let content = match field(&res.result, "content") {
                JsonValue::Array(c) => c,
                other => panic!("unexpected {:?}", other),
            };
            assert_eq!(as_text(field(&content[0], "text")), "no message");
        }
        JsonRpcResponse::Error(e) => panic!("Expected result, got error: {:?}", e),
    }
    server.handle_notification(&JsonRpcNotification {
        jsonrpc: "2.0".to_string(),
        method: "notifications/initialized".to_string(),
        params: None,
    });
    assert!(server.initialized());
}

#[test]
fn later_registration_replaces_earlier() {
    let mut server = McpServer::builder("s", "1")
        .tool(ToolDefinition::new("a").with_description("first"))
        .tool(ToolDefinition::new("b"))
        .tool(ToolDefinition::new("a").with_description("second"))
        .build();
    let listed = server.list_tools();
    assert_eq!(listed.len(), 2);
    let a = listed.iter().find(|t| as_text(field(t, "name")) == "a").unwrap();
    assert_eq!(as_text(field(a, "description")), "second");
    let response = run(&mut server, request(RequestId::Number(13), "tools/list", None));
    assert!(matches!(response, JsonRpcResponse::Result(_)));
}

#[test]
fn notifications_yield_no_response() {
    let mut server = build_test_server();
    let msg = polygon_mcp::JsonRpcMessage::Notification(JsonRpcNotification {
        jsonrpc: "2.0".to_string(),
        method: "notifications/cancelled".to_string(),
        params: None,
    });
    assert!(server.handle_message(msg).is_none());
    assert!(!server.initialized());
}

#[test]
fn initialize_reports_instructions_and_tools_capability() {
    let mut server = McpServer::builder("s", "1").instructions("Use the tools.").build();
    let params = obj(vec![
        ("protocolVersion", text("2025-11-25")),
        ("capabilities", obj(vec![])),
        ("clientInfo", obj(vec![("name", text("c")), ("version", text("1"))])),
    ]);
    match run(&mut server, request(RequestId::Number(20), "initialize", Some(params))) {
        JsonRpcResponse::Result(res) => {
            assert_eq!(as_text(field(&res.result, "instructions")), "Use the tools.");
            assert!(matches!(field(field(&res.result, "capabilities"), "tools"), JsonValue::Object(_)));
        }
        JsonRpcResponse::Error(e) => panic!("Expected result, got error: {:?}", e),
    }
}

#[test]
fn tools_call_passes_arguments_through() {
    let mut server = build_test_server();
    let params = obj(vec![
        ("name", text("echo")),
        ("arguments", obj(vec![("message", text("hi")), ("n", JsonValue::Int(2))])),
    ]);
    match server.handle_request(request(RequestId::Number(21), "tools/call", Some(params))) {
        Dispatch::CallTool { id, name, arguments } => {
            assert_eq!(id, RequestId::Number(21));
            assert_eq!(name, "echo");
            assert_eq!(arguments.len(), 2);
            assert_eq!(arguments[0].0, "message");
            assert!(matches!(&arguments[1], (k, JsonValue::Int(2)) if k == "n"));
        }
        other => panic!("unexpected {:?}", other),
    }
}

#[test]
fn tools_list_has_full_definitions_and_no_cursor() {
    let mut server = build_test_server();
    match run(&mut server, request(RequestId::Number(22), "tools/list", None)) {
        JsonRpcResponse::Result(res) => {
            assert!(get_member(&res.result, "nextCursor").is_none());
            let tools = match field(&res.result, "tools") {
                JsonValue::Array(t) => t,
                other => panic!("unexpected {:?}", other),
            };
            let schema = field(&tools[0], "inputSchema");
            assert!(matches!(field(schema, "properties"), JsonValue::Object(_)));
            assert!(matches!(field(schema, "required"), JsonValue::Array(v) if v.len() == 1));
            assert!(get_member(&tools[0], "annotations").is_none());
        }
        JsonRpcResponse::Error(e) => panic!("Expected result, got error: {:?}", e),
    }
}
