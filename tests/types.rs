use polygon_mcp::tool::{ImageContent, ResourceLink};
use polygon_mcp::ContentBlock;
use polygon_mcp::json::get_member;
use polygon_mcp::{CallToolResult, Implementation, JsonValue, McpServer, Timespan, ToolDefinition, PROTOCOL_VERSION};

fn as_text<'a>(v: Option<&'a JsonValue>) -> &'a str {
    match v {
        Some(JsonValue::Str(s)) => s,
        other => panic!("not a string: {:?}", other),
    }
}

#[test]
fn serializes_initialize_result() {
    let server = McpServer::builder("test-server", "1.0.0").build();
    let json = server.initialize_result();
    assert_eq!(as_text(get_member(&json, "protocolVersion")), "2025-11-25");
    assert_eq!(as_text(get_member(get_member(&json, "serverInfo").unwrap(), "name")), "test-server");
    assert_eq!(PROTOCOL_VERSION, "2025-11-25");
}

#[test]
fn serializes_tool_definition() {
    let tool = ToolDefinition::new("get_price").with_description("Get stock price");

    let json = tool.to_json();
    assert_eq!(as_text(get_member(&json, "name")), "get_price");
    assert_eq!(as_text(get_member(&json, "description")), "Get stock price");
    assert_eq!(as_text(get_member(get_member(&json, "inputSchema").unwrap(), "type")), "object");
}

#[test]
fn serializes_call_tool_result() {
    let result = CallToolResult::text("Hello, world!");
    let json = result.to_json();
    let content = match get_member(&json, "content") {
        Some(JsonValue::Array(c)) => c,
        other => panic!("unexpected {:?}", other),
    };
    assert_eq!(as_text(get_member(&content[0], "type")), "text");
    assert_eq!(as_text(get_member(&content[0], "text")), "Hello, world!");
    assert!(get_member(&json, "isError").is_none());
}

#[test]
fn serializes_error_result() {
    let result = CallToolResult::error("Something went wrong");
    let json = result.to_json();
    assert!(matches!(get_member(&json, "isError"), Some(JsonValue::Bool(true))));
    let content = match get_member(&json, "content") {
        Some(JsonValue::Array(c)) => c,
        other => panic!("unexpected {:?}", other),
    };
    assert_eq!(as_text(get_member(&content[0], "text")), "Something went wrong");
}

#[test]
fn implementation_json_has_name_and_version() {
    let i = Implementation::new("n", "v").with_description("d");
    let json = i.to_json();
    assert_eq!(as_text(get_member(&json, "name")), "n");
    assert_eq!(as_text(get_member(&json, "version")), "v");
    assert_eq!(as_text(get_member(&json, "description")), "d");
    assert!(get_member(&json, "title").is_none());
}

#[test]
fn structured_content_is_attached() {
    let r = CallToolResult::text("t").with_structured(JsonValue::Int(5));
    let json = r.to_json();
    assert!(matches!(get_member(&json, "structuredContent"), Some(JsonValue::Int(5))));
}

#[test]
fn timespan_names() {
    let all = [
        (Timespan::Second, "second"),
        (Timespan::Minute, "minute"),
        (Timespan::Hour, "hour"),
        (Timespan::Day, "day"),
        (Timespan::Week, "week"),
        (Timespan::Month, "month"),
        (Timespan::Quarter, "quarter"),
        (Timespan::Year, "year"),
    ];
    for (t, name) in all {
        assert_eq!(t.as_str(), name);
    }
}

#[test]
fn content_blocks_carry_their_members() {
    let image = ContentBlock::Image(ImageContent { data: "AAAA".to_string(), mime_type: "image/png".to_string() }).to_json();
    assert_eq!(as_text(get_member(&image, "type")), "image");
    assert_eq!(as_text(get_member(&image, "data")), "AAAA");
    assert_eq!(as_text(get_member(&image, "mimeType")), "image/png");
    let link = ContentBlock::ResourceLink(ResourceLink {
        uri: "file:///a".to_string(),
        name: "a".to_string(),
        description: None,
        mime_type: Some("text/plain".to_string()),
    })
    .to_json();
    assert_eq!(as_text(get_member(&link, "type")), "resource_link");
    assert_eq!(as_text(get_member(&link, "uri")), "file:///a");
    assert!(get_member(&link, "description").is_none());
    assert_eq!(as_text(get_member(&link, "mimeType")), "text/plain");
}
