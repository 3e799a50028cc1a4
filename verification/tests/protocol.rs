use ldk_server_mcp::json_args::{ArgValue, ToolArgs};
use ldk_server_mcp::mcp::{InitializeResult, ToolCallResult};
use ldk_server_mcp::protocol::{
    dispatch_request, Dispatch, JsonRpcErrorResponse, JsonRpcRequest, JsonRpcResponse,
    METHOD_NOT_FOUND, PARSE_ERROR,
};
use ldk_server_mcp::tools::requests::ClientRequest;
use ldk_server_mcp::tools::{build_tool_registry, tool_call_result, ToolCall};
use serde_json::Value;

// The README documents 30 tools ("all 30"): the 26 of its tables and the four
// graph tools that the tests below call. The registry offers exactly those.
const NUM_TOOLS: usize = 30;

fn object(entries: Vec<(&str, ArgValue)>) -> ToolArgs {
    ToolArgs { entries: entries.into_iter().map(|(k, v)| (k.to_string(), v)).collect() }
}

fn request(id: Option<Value>, method: &str, params: Option<ToolArgs>) -> JsonRpcRequest {
    JsonRpcRequest { jsonrpc: "2.0".to_string(), id, method: method.to_string(), params }
}

fn call_params(name: &str, arguments: ToolArgs) -> ToolArgs {
    object(vec![("name", ArgValue::Str(name.to_string())), ("arguments", ArgValue::Object(arguments))])
}

/// Routes a `tools/call` request and decides the call.
fn call(name: &str, arguments: ToolArgs) -> ToolCall {
    let registry = build_tool_registry();
    match dispatch_request(request(
        Some(Value::from(1)),
        "tools/call",
        Some(call_params(name, arguments)),
    )) {
        Dispatch::CallTool { id, name, arguments } => {
            assert_eq!(id, Value::from(1));
            registry.call_tool(&name, &arguments)
        },
        _ => panic!("expected a tool call"),
    }
}

/// The result of a planned call when the node cannot be reached. The node
/// client's error message is not at hand here (no node runs in these tests),
/// so a message of its kind stands in; what is tested is that a request is
/// planned and that the library reports a failed call as an error.
fn unreachable_result(call: ToolCall) -> ToolCallResult {
    match call {
        ToolCall::Send(_) => tool_call_result(Err("error sending request for url".to_string())),
        ToolCall::Finished(r) => r,
    }
}

#[test]
fn test_initialize() {
    let params = object(vec![
        ("protocolVersion", ArgValue::Str("2024-11-05".to_string())),
        ("capabilities", ArgValue::Object(ToolArgs::new())),
    ]);
    let d = dispatch_request(request(Some(Value::from(1)), "initialize", Some(params)));
    let id = match d {
        Dispatch::Initialize(id) => id,
        _ => panic!("expected initialize"),
    };
    let resp = JsonRpcResponse::new(id, Value::Null);
    assert_eq!(resp.jsonrpc, "2.0");
    assert_eq!(resp.id, Value::from(1));
    let result = InitializeResult::new();
    assert_eq!(result.protocol_version, "2024-11-05");
    assert_eq!(result.server_info.name, "ldk-server-mcp");
    assert_eq!(result.server_info.version, "0.1.0");
}

#[test]
fn test_tools_list() {
    let d = dispatch_request(request(Some(Value::from(1)), "tools/list", Some(ToolArgs::new())));
    assert!(matches!(d, Dispatch::ListTools(ref id) if *id == Value::from(1)));
    let registry = build_tool_registry();
    let tools = registry.list_tools();
    assert_eq!(tools.len(), NUM_TOOLS, "Expected {NUM_TOOLS} tools, got {}", tools.len());
    for tool in tools {
        assert!(!tool.name.is_empty(), "Tool missing name");
        assert!(!tool.description.is_empty(), "Tool missing description");
        assert!(
            tool.input_schema.required.iter().all(|r| tool.input_schema.properties.iter().any(|p| &p.name == r)),
            "Tool missing inputSchema"
        );
    }
}

#[test]
fn test_tools_call_unknown_tool() {
    let result = match call("nonexistent_tool", ToolArgs::new()) {
        ToolCall::Finished(r) => r,
        ToolCall::Send(_) => panic!("an unknown tool sends nothing"),
    };
    assert_eq!(result.is_error, Some(true));
    let text = &result.content[0].text;
    assert!(text.contains("Unknown tool"), "Expected 'Unknown tool' in error, got: {text}");
}

#[test]
fn test_tools_call_unreachable_server() {
    let planned = call("get_node_info", ToolArgs::new());
    assert!(matches!(planned, ToolCall::Send(ClientRequest::GetNodeInfo)));
    let result = unreachable_result(planned);
    assert_eq!(result.is_error, Some(true));
    assert!(!result.content[0].text.is_empty(), "Expected non-empty error message");
}

#[test]
fn test_notification_no_response() {
    let d = dispatch_request(request(None, "notifications/initialized", None));
    assert!(matches!(d, Dispatch::Ignore));
    let d = dispatch_request(request(Some(Value::from(42)), "initialize", None));
    match d {
        Dispatch::Initialize(id) => assert_eq!(id, Value::from(42)),
        _ => panic!("expected initialize"),
    }
}

#[test]
fn test_graph_list_channels_unreachable() {
    let planned = call("graph_list_channels", ToolArgs::new());
    assert!(matches!(planned, ToolCall::Send(ClientRequest::GraphListChannels)));
    let result = unreachable_result(planned);
    assert_eq!(result.is_error, Some(true));
    assert!(!result.content[0].text.is_empty(), "Expected non-empty error message");
}

#[test]
fn test_graph_get_channel_unreachable() {
    let planned = call("graph_get_channel", object(vec![("short_channel_id", ArgValue::UInt(12345))]));
    assert!(matches!(planned, ToolCall::Send(ClientRequest::GraphGetChannel(_))));
    let result = unreachable_result(planned);
    assert_eq!(result.is_error, Some(true));
    assert!(!result.content[0].text.is_empty(), "Expected non-empty error message");
}

#[test]
fn test_graph_list_nodes_unreachable() {
    let planned = call("graph_list_nodes", ToolArgs::new());
    assert!(matches!(planned, ToolCall::Send(ClientRequest::GraphListNodes)));
    let result = unreachable_result(planned);
    assert_eq!(result.is_error, Some(true));
    assert!(!result.content[0].text.is_empty(), "Expected non-empty error message");
}

#[test]
fn test_graph_get_node_unreachable() {
    let planned = call(
        "graph_get_node",
        object(vec![(
            "node_id",
            ArgValue::Str("02deadbeefdeadbeefdeadbeefdeadbeefdeadbeefdeadbeefdeadbeefdeadbeef".to_string()),
        )]),
    );
    assert!(matches!(planned, ToolCall::Send(ClientRequest::GraphGetNode(_))));
    let result = unreachable_result(planned);
    assert_eq!(result.is_error, Some(true));
    assert!(!result.content[0].text.is_empty(), "Expected non-empty error message");
}

#[test]
fn test_malformed_json() {
    let resp = JsonRpcErrorResponse::parse_error(Value::Null);
    assert_eq!(resp.jsonrpc, "2.0");
    assert_eq!(resp.error.code, -32700);
    assert_eq!(resp.error.code, PARSE_ERROR);
    assert_eq!(resp.error.message, "Parse error");
    assert!(resp.error.data.is_none());
}

#[test]
fn unknown_method_is_refused() {
    match dispatch_request(request(Some(Value::from(7)), "resources/list", None)) {
        Dispatch::Reject(e) => {
            assert_eq!(e.id, Value::from(7));
            assert_eq!(e.error.code, METHOD_NOT_FOUND);
            assert_eq!(e.error.message, "Method not found: resources/list");
        },
        _ => panic!("expected a refusal"),
    }
}

#[test]
fn tools_call_without_params_names_no_tool() {
    match dispatch_request(request(Some(Value::from(3)), "tools/call", None)) {
        Dispatch::CallTool { name, arguments, .. } => {
            assert_eq!(name, "");
            assert!(arguments.entries.is_empty());
        },
        _ => panic!("expected a tool call"),
    }
    // Arguments that are not an object read as no arguments.
    let params = object(vec![
        ("name", ArgValue::Str("list_channels".to_string())),
        ("arguments", ArgValue::Other),
    ]);
    match dispatch_request(request(Some(Value::from(3)), "tools/call", Some(params))) {
        Dispatch::CallTool { name, arguments, .. } => {
            assert_eq!(name, "list_channels");
            assert!(arguments.entries.is_empty());
        },
        _ => panic!("expected a tool call"),
    }
}

#[test]
fn success_and_error_results() {
    let ok = ToolCallResult::success("{}".to_string());
    assert_eq!(ok.is_error, None);
    assert_eq!(ok.content.len(), 1);
    assert_eq!(ok.content[0].content_type, "text");
    assert_eq!(ok.content[0].text, "{}");
    let err = ToolCallResult::error("boom".to_string());
    assert_eq!(err.is_error, Some(true));
    assert_eq!(err.content[0].text, "boom");
}
