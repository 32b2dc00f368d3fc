//! The dispatcher, the registry, the stream transport step, and the HTTP
//! support payloads.

use mcp_server::config::get_tool_config;
use mcp_server::config::load_config;
use mcp_server::dispatch::dispatch;
use mcp_server::echo::initialize_tools;
use mcp_server::echo::register;
use mcp_server::json::Json;
use mcp_server::protocol::request_from_json;
use mcp_server::protocol::response_to_string;
use mcp_server::protocol::MCPRequest;
use mcp_server::registry::AppState;
use mcp_server::registry::EchoTool;
use mcp_server::registry::ToolHandler;
use mcp_server::registry::ToolRegistry;
use mcp_server::server::health_body;
use mcp_server::server::metrics_body;
use mcp_server::server::parse_transport_mode;
use mcp_server::server::sse_frame;
use mcp_server::server::worker_count;
use mcp_server::server::TransportMode;
use mcp_server::stream::handle_line;
use mcp_server::text::json_to_string;

fn state() -> AppState {
    AppState { server_name: "test-server".to_string(), server_version: "1.2.3".to_string() }
}

const ECHO_DESCRIPTOR: &str = "{\"name\":\"echo\",\"description\":\"Echo a message back to the client.\",\"inputSchema\":{\"type\":\"object\",\"properties\":{\"message\":{\"type\":\"string\",\"description\":\"The message to echo\"}},\"required\":[\"message\"]}}";

#[test]
fn round_trip_echo_call() {
    let registry = initialize_tools();
    let line = "{\"jsonrpc\":\"2.0\",\"id\":1,\"method\":\"tools/call\",\"params\":{\"name\":\"echo\",\"arguments\":{\"message\":\"hi\"}}}";
    let out = handle_line(&state(), &registry, line);
    assert_eq!(
        out.as_deref(),
        Some(
            "{\"jsonrpc\":\"2.0\",\"id\":1,\"result\":{\"content\":[{\"type\":\"text\",\"text\":\"{\\\"result\\\":\\\"hi\\\"}\"}],\"isError\":false}}"
        )
    );
}

#[test]
fn unknown_method_envelope() {
    let registry = initialize_tools();
    let line = "{\"jsonrpc\":\"2.0\",\"id\":7,\"method\":\"foo/bar\"}";
    let out = handle_line(&state(), &registry, line);
    assert_eq!(
        out.as_deref(),
        Some(
            "{\"jsonrpc\":\"2.0\",\"id\":7,\"error\":{\"code\":-32601,\"message\":\"Method not found: foo/bar\"}}"
        )
    );
}

#[test]
fn initialize_reports_identity() {
    // the registry's contents do not matter, an empty one serves too
    let registry = ToolRegistry::new();
    let line = "{\"jsonrpc\":\"2.0\",\"id\":5,\"method\":\"initialize\"}";
    let out = handle_line(&state(), &registry, line);
    assert_eq!(
        out.as_deref(),
        Some(
            "{\"jsonrpc\":\"2.0\",\"id\":5,\"result\":{\"protocolVersion\":\"2024-11-05\",\"capabilities\":{\"tools\":{}},\"serverInfo\":{\"name\":\"test-server\",\"version\":\"1.2.3\"}}}"
        )
    );
}

#[test]
fn tools_list_reports_descriptors() {
    let registry = initialize_tools();
    let line = "{\"jsonrpc\":\"2.0\",\"id\":2,\"method\":\"tools/list\"}";
    let out = handle_line(&state(), &registry, line);
    let expected = format!(
        "{{\"jsonrpc\":\"2.0\",\"id\":2,\"result\":{{\"tools\":[{}]}}}}",
        ECHO_DESCRIPTOR
    );
    assert_eq!(out.as_deref(), Some(expected.as_str()));
}

#[test]
fn duplicate_registration_keeps_both_descriptors() {
    let mut registry = initialize_tools();
    register(&mut registry);
    assert_eq!(registry.tools.len(), 2);
    assert_eq!(registry.handlers.len(), 2);
    assert!(registry.lookup(&"echo".to_string()).is_some());
    assert!(registry.lookup(&"nope".to_string()).is_none());
    let line = "{\"jsonrpc\":\"2.0\",\"id\":2,\"method\":\"tools/list\"}";
    let out = handle_line(&state(), &registry, line).unwrap();
    let expected = format!(
        "{{\"jsonrpc\":\"2.0\",\"id\":2,\"result\":{{\"tools\":[{},{}]}}}}",
        ECHO_DESCRIPTOR, ECHO_DESCRIPTOR
    );
    assert_eq!(out, expected);
}

#[test]
fn unknown_tool_is_envelope_error() {
    let registry = initialize_tools();
    let line = "{\"jsonrpc\":\"2.0\",\"id\":9,\"method\":\"tools/call\",\"params\":{\"name\":\"nope\"}}";
    let out = handle_line(&state(), &registry, line);
    assert_eq!(
        out.as_deref(),
        Some(
            "{\"jsonrpc\":\"2.0\",\"id\":9,\"error\":{\"code\":-32601,\"message\":\"Unknown tool: nope\"}}"
        )
    );
}

#[test]
fn missing_params_is_invalid_params() {
    let registry = initialize_tools();
    let line = "{\"jsonrpc\":\"2.0\",\"id\":4,\"method\":\"tools/call\"}";
    let out = handle_line(&state(), &registry, line);
    assert_eq!(
        out.as_deref(),
        Some(
            "{\"jsonrpc\":\"2.0\",\"id\":4,\"error\":{\"code\":-32602,\"message\":\"Invalid params\"}}"
        )
    );
}

#[test]
fn handler_failure_is_successful_envelope() {
    let registry = initialize_tools();
    let line = "{\"jsonrpc\":\"2.0\",\"id\":2,\"method\":\"tools/call\",\"params\":{\"name\":\"echo\",\"arguments\":{}}}";
    let out = handle_line(&state(), &registry, line);
    assert_eq!(
        out.as_deref(),
        Some(
            "{\"jsonrpc\":\"2.0\",\"id\":2,\"result\":{\"content\":[{\"type\":\"text\",\"text\":\"Error: Missing required parameter: message\"}],\"isError\":true}}"
        )
    );
}

#[test]
fn handler_failure_on_non_string_message() {
    let registry = initialize_tools();
    let line = "{\"jsonrpc\":\"2.0\",\"id\":2,\"method\":\"tools/call\",\"params\":{\"name\":\"echo\",\"arguments\":{\"message\":5}}}";
    let out = handle_line(&state(), &registry, line).unwrap();
    assert!(out.contains("\"isError\":true"));
    assert!(out.contains("Error: Missing required parameter: message"));
    assert!(!out.contains("\"error\":{"));
}

#[test]
fn notification_produces_no_output() {
    let registry = initialize_tools();
    let st = state();
    assert_eq!(handle_line(&st, &registry, "{\"jsonrpc\":\"2.0\",\"method\":\"initialize\"}"), None);
    assert_eq!(
        handle_line(&st, &registry, "{\"jsonrpc\":\"2.0\",\"method\":\"notifications/initialized\"}"),
        None
    );
    // an identifier set to null counts as absent
    assert_eq!(
        handle_line(&st, &registry, "{\"jsonrpc\":\"2.0\",\"id\":null,\"method\":\"initialize\"}"),
        None
    );
}

#[test]
fn blank_and_undecodable_lines_are_dropped() {
    let registry = initialize_tools();
    let st = state();
    assert_eq!(handle_line(&st, &registry, ""), None);
    assert_eq!(handle_line(&st, &registry, "   \t"), None);
    assert_eq!(handle_line(&st, &registry, "{\"id\":3,\"method\""), None);
    assert_eq!(handle_line(&st, &registry, "not json"), None);
}

#[test]
fn parse_error_with_recovered_id() {
    let registry = initialize_tools();
    // a document, but no request envelope: the method member is missing
    let out = handle_line(&state(), &registry, "{\"id\":3}");
    assert_eq!(
        out.as_deref(),
        Some(
            "{\"jsonrpc\":\"2.0\",\"id\":3,\"error\":{\"code\":-32700,\"message\":\"Parse error: invalid request envelope\"}}"
        )
    );
    // no identifier to recover: the line is dropped
    assert_eq!(handle_line(&state(), &registry, "{\"method\":5}"), None);
}

#[test]
fn dispatch_answers_notifications_too() {
    // the HTTP transport returns a body even for a request without an
    // identifier; the envelope then carries a null identifier
    let registry = initialize_tools();
    let req = MCPRequest {
        jsonrpc: "2.0".to_string(),
        id: None,
        method: "initialize".to_string(),
        params: None,
    };
    let resp = dispatch(&state(), &registry, req);
    let line = response_to_string(resp);
    assert!(line.starts_with("{\"jsonrpc\":\"2.0\",\"id\":null,\"result\":"));
}

#[test]
fn request_extraction_checks_the_envelope() {
    let doc = |s: &str| mcp_server::parse::parse_document(s).unwrap();
    assert!(request_from_json(&doc("{\"jsonrpc\":\"2.0\",\"method\":\"x\"}")).is_some());
    assert!(request_from_json(&doc("{\"method\":\"x\"}")).is_none());
    assert!(request_from_json(&doc("{\"jsonrpc\":\"1.0\",\"method\":\"x\"}")).is_none());
    assert!(request_from_json(&doc("{\"jsonrpc\":\"2.0\",\"method\":5}")).is_none());
    assert!(request_from_json(&doc("[1,2]")).is_none());
    let rq = request_from_json(&doc(
        "{\"jsonrpc\":\"2.0\",\"id\":8,\"method\":\"m\",\"params\":{\"a\":1}}",
    ))
    .unwrap();
    assert_eq!(rq.method, "m");
    assert_eq!(json_to_string(&rq.id.unwrap()), "8");
    assert_eq!(json_to_string(&rq.params.unwrap()), "{\"a\":1}");
}

#[test]
fn health_and_metrics_payloads() {
    assert_eq!(health_body(), "{\"service\":\"mcp-server\",\"status\":\"ok\"}");
    assert_eq!(metrics_body(0), "{\"requests_total\":0,\"status\":\"ok\"}");
    assert_eq!(metrics_body(42), "{\"requests_total\":42,\"status\":\"ok\"}");
}

#[test]
fn sse_frame_lists_tools() {
    let registry = initialize_tools();
    let expected = format!("data: {{\"count\":1,\"tools\":[{}]}}\n\n", ECHO_DESCRIPTOR);
    assert_eq!(sse_frame(&registry), expected);
}

#[test]
fn worker_pool_sizing() {
    assert_eq!(worker_count(Some(4)), 4);
    assert_eq!(worker_count(Some(1)), 1);
    let n = worker_count(None);
    assert!((1..=16).contains(&n));
}

#[test]
fn transport_mode_selector() {
    assert!(matches!(parse_transport_mode("stdio"), Some(TransportMode::Stdio)));
    assert!(matches!(parse_transport_mode("http"), Some(TransportMode::Http)));
    assert!(matches!(parse_transport_mode("both"), Some(TransportMode::Both)));
    assert!(parse_transport_mode("neither").is_none());
    assert!(parse_transport_mode("").is_none());
}

#[test]
fn configuration_stub_is_empty() {
    assert!(load_config().is_empty());
    assert!(get_tool_config("echo").is_empty());
    assert!(get_tool_config("weather").is_empty());
}

#[test]
fn tool_arguments_default_to_empty_object() {
    // no arguments member: the handler sees an empty object and fails for
    // want of a message
    let registry = initialize_tools();
    let line = "{\"jsonrpc\":\"2.0\",\"id\":6,\"method\":\"tools/call\",\"params\":{\"name\":\"echo\"}}";
    let out = handle_line(&state(), &registry, line).unwrap();
    assert!(out.contains("\"isError\":true"));
}

#[test]
fn call_name_defaults_to_empty() {
    // no name member: the empty name is unknown
    let registry = initialize_tools();
    let line = "{\"jsonrpc\":\"2.0\",\"id\":6,\"method\":\"tools/call\",\"params\":{}}";
    let out = handle_line(&state(), &registry, line);
    assert_eq!(
        out.as_deref(),
        Some(
            "{\"jsonrpc\":\"2.0\",\"id\":6,\"error\":{\"code\":-32601,\"message\":\"Unknown tool: \"}}"
        )
    );
}

#[test]
fn non_scalar_id_is_echoed() {
    let registry = initialize_tools();
    let line = "{\"jsonrpc\":\"2.0\",\"id\":\"abc\",\"method\":\"foo\"}";
    let out = handle_line(&state(), &registry, line).unwrap();
    assert!(out.starts_with("{\"jsonrpc\":\"2.0\",\"id\":\"abc\",\"error\":"));
}

#[test]
fn echo_prefix_concatenation() {
    let handler = ToolHandler::Echo(EchoTool { prefix: "Echo: ".to_string() });
    let args = Json::Obj(vec![("message".to_string(), Json::Str("hi".to_string()))]);
    let out = handler.call(&args).unwrap();
    assert_eq!(json_to_string(&out), "{\"result\":\"Echo: hi\"}");
}
