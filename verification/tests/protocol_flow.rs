use rust_analyzer_mcp::json::{array, member, object, JsonNumber, JsonValue};
use rust_analyzer_mcp::lsp::framing::frame_json;
use rust_analyzer_mcp::mcp::prompts::get_prompts;
use rust_analyzer_mcp::wire::{parse_json, parse_manifest, render_json};
use rust_analyzer_mcp::mcp::protocol::{
    classify_method, dispatch_frame, handle_message, resource_not_found, resource_reply, response_label,
    route_resource, route_tool, tool_reply, unknown_tool_result, Dispatch, McpMethod,
    ResourceKind, ToolKind,
};
use rust_analyzer_mcp::mcp::resources::get_resources;
use rust_analyzer_mcp::mcp::tools::get_tools;

fn num(n: u64) -> JsonValue {
    JsonValue::Number(JsonNumber::PosInt(n))
}

fn request(id: Option<u64>, method: &str, params: Option<JsonValue>) -> JsonValue {
    let mut m = vec![member("jsonrpc", JsonValue::string("2.0"))];
    if let Some(i) = id {
        m.push(member("id", num(i)));
    }
    m.push(member("method", JsonValue::string(method)));
    if let Some(p) = params {
        m.push(member("params", p));
    }
    object(m)
}

fn reply_of(d: Dispatch) -> JsonValue {
    match d {
        Dispatch::Reply(v) => v,
        _ => panic!("expected a direct reply"),
    }
}

#[test]
fn initialize_reply_names_the_server() {
    let r = reply_of(handle_message(&request(Some(1), "initialize", None), "0.1.0"));
    assert_eq!(r.get_u64("id"), Some(1));
    let result = r.get("result").unwrap();
    assert_eq!(result.get_str("protocolVersion"), Some("2024-11-05"));
    let info = result.get("serverInfo").unwrap();
    assert_eq!(info.get_str("name"), Some("rust-analyzer-mcp"));
    assert_eq!(info.get_str("version"), Some("0.1.0"));
}

#[test]
fn tools_list_reply_lists_every_tool() {
    let r = reply_of(handle_message(&request(Some(2), "tools/list", None), "0.1.0"));
    let tools = r.get("result").unwrap().get("tools").unwrap();
    match tools {
        JsonValue::Array(items) => {
            assert_eq!(items.len(), get_tools().len());
            assert_eq!(items[0].get_str("name"), Some("open_project"));
            assert!(items[0].get("inputSchema").is_some());
        },
        _ => panic!("tools is not an array"),
    }
}

#[test]
fn tool_call_is_handed_on() {
    let params = object(vec![
        member("name", JsonValue::string("hover")),
        member("arguments", object(vec![member("line", num(3))])),
    ]);
    match handle_message(&request(Some(5), "tools/call", Some(params)), "0.1.0") {
        Dispatch::CallTool { id, name, arguments } => {
            assert_eq!(id.unwrap().as_u64(), Some(5));
            assert_eq!(name, "hover");
            assert_eq!(arguments.get_u64("line"), Some(3));
        },
        _ => panic!("expected a tool call"),
    }
}

#[test]
fn tool_call_without_arguments_gets_an_empty_object() {
    let params = object(vec![member("name", JsonValue::string("status"))]);
    match handle_message(&request(Some(6), "tools/call", Some(params)), "0.1.0") {
        Dispatch::CallTool { arguments, .. } => match arguments {
            JsonValue::Object(m) => assert!(m.is_empty()),
            _ => panic!("arguments are not an object"),
        },
        _ => panic!("expected a tool call"),
    }
}

#[test]
fn resource_read_is_handed_on() {
    let params = object(vec![member("uri", JsonValue::string("health://status"))]);
    match handle_message(&request(Some(7), "resources/read", Some(params)), "0.1.0") {
        Dispatch::ReadResource { uri, .. } => assert_eq!(uri, "health://status"),
        _ => panic!("expected a resource read"),
    }
}

#[test]
fn unknown_method_with_id_is_an_error() {
    let r = reply_of(handle_message(&request(Some(9), "frobnicate", None), "0.1.0"));
    assert_eq!(r.get_u64("id"), Some(9));
    let e = r.get("error").unwrap();
    match e.get("code").unwrap() {
        JsonValue::Number(JsonNumber::NegInt(c)) => assert_eq!(*c, -32601),
        _ => panic!("code is not a negative integer"),
    }
    assert_eq!(e.get_str("message"), Some("Method not found"));
}

#[test]
fn unknown_notification_gets_an_empty_reply() {
    let r = reply_of(handle_message(&request(None, "frobnicate", None), "0.1.0"));
    match r {
        JsonValue::Object(m) => assert!(m.is_empty()),
        _ => panic!("reply is not an object"),
    }
}

#[test]
fn shutdown_replies_with_null() {
    let r = reply_of(handle_message(&request(Some(3), "shutdown", None), "0.1.0"));
    assert!(matches!(r.get("result"), Some(JsonValue::Null)));
}

#[test]
fn prompts_get_known_and_unknown() {
    let known = object(vec![member("name", JsonValue::string("analyze_error"))]);
    let r = reply_of(handle_message(&request(Some(4), "prompts/get", Some(known)), "0.1.0"));
    assert!(r.get("result").is_some());
    let unknown = object(vec![member("name", JsonValue::string("nope"))]);
    let r = reply_of(handle_message(&request(Some(4), "prompts/get", Some(unknown)), "0.1.0"));
    assert_eq!(r.get("error").unwrap().get_str("message"), Some("Prompt not found"));
}

#[test]
fn methods_are_classified() {
    assert_eq!(classify_method("tools/call"), McpMethod::ToolsCall);
    assert_eq!(classify_method("initialized"), McpMethod::Initialized);
    assert_eq!(classify_method("tools/cal"), McpMethod::Other);
}

#[test]
fn every_listed_tool_routes() {
    for t in get_tools() {
        assert_ne!(route_tool(t.name), ToolKind::Unknown, "{}", t.name);
    }
    assert_eq!(route_tool("hover"), ToolKind::Hover);
    assert_eq!(route_tool("nonsense"), ToolKind::Unknown);
}

#[test]
fn every_listed_resource_routes() {
    for r in get_resources() {
        assert_ne!(route_resource(r.uri), ResourceKind::NotFound, "{}", r.uri);
    }
    assert_eq!(route_resource("rust://nothing"), ResourceKind::NotFound);
}

#[test]
fn replies_echo_the_id() {
    let r = tool_reply(Some(num(11)), unknown_tool_result("zap"));
    assert_eq!(r.get_u64("id"), Some(11));
    let result = r.get("result").unwrap();
    assert_eq!(result.get_bool("isError"), Some(true));
    match result.get("content").unwrap() {
        JsonValue::Array(items) => assert_eq!(items[0].get_str("text"), Some("Unknown tool: zap")),
        _ => panic!("content is not an array"),
    }
    let r = resource_reply(Some(num(12)), "config://current", "{}".to_string());
    let contents = r.get("result").unwrap().get("contents").unwrap();
    match contents {
        JsonValue::Array(items) => {
            assert_eq!(items[0].get_str("uri"), Some("config://current"));
            assert_eq!(items[0].get_str("mimeType"), Some("application/json"));
            assert_eq!(items[0].get_str("text"), Some("{}"));
        },
        _ => panic!("contents is not an array"),
    }
    let r = resource_not_found(None);
    assert!(matches!(r.get("id"), Some(JsonValue::Null)));
    assert_eq!(r.get("error").unwrap().get_str("message"), Some("Resource not found"));
}

#[test]
fn metrics_label_of_a_reply() {
    let with_method = object(vec![member("method", JsonValue::string("ping"))]);
    assert_eq!(response_label(&with_method), "ping");
    assert_eq!(response_label(&object(vec![])), "response");
    assert_eq!(response_label(&array(vec![])), "response");
}

#[test]
fn tools_named_in_the_readme_are_offered_and_routed() {
    let names: Vec<&str> = get_tools().iter().map(|t| t.name).collect();
    for n in [
        "open_project", "status", "goto_definition", "find_references", "hover", "completions",
        "diagnostics", "code_action", "document_symbol", "workspace_symbol", "inlay_hints",
        "expand_macro", "format", "rename",
    ] {
        assert!(names.contains(&n), "{}", n);
    }
    assert_eq!(route_tool("diagnostics"), ToolKind::GetDiagnostics);
    assert_eq!(route_tool("document_symbol"), ToolKind::FileStructure);
    assert_eq!(route_tool("format"), ToolKind::FormatFile);
    assert_eq!(route_tool("rename"), ToolKind::RenameSymbol);
}

#[test]
fn resources_named_in_the_readme_are_offered_and_read() {
    let uris: Vec<&str> = get_resources().iter().map(|r| r.uri).collect();
    assert!(uris.contains(&"rust://version"));
    assert!(uris.contains(&"rust://config"));
    assert_eq!(route_resource("rust://version"), ResourceKind::RustAnalyzerVersion);
    assert_eq!(route_resource("rust://config"), ResourceKind::CurrentConfig);
}

#[test]
fn every_listed_prompt_is_served() {
    let prompts = get_prompts();
    for n in ["analyze_code", "explain_error"] {
        assert!(prompts.iter().any(|p| p.name == n), "{}", n);
    }
    for p in prompts {
        let params = object(vec![member("name", JsonValue::string(p.name))]);
        let r = reply_of(handle_message(&request(Some(8), "prompts/get", Some(params)), "0.1.0"));
        assert!(r.get("error").is_none(), "{}", p.name);
        assert_eq!(r.get_u64("id"), Some(8));
        match r.get("result").unwrap().get("messages").unwrap() {
            JsonValue::Array(items) => {
                assert_eq!(items.len(), 1);
                assert_eq!(items[0].get_str("role"), Some("user"));
            },
            _ => panic!("messages is not an array"),
        }
    }
}

#[test]
fn framed_bodies_are_parsed_and_dispatched() {
    let body = br#"{"jsonrpc":"2.0","id":3,"method":"tools/call","params":{"name":"hover","arguments":{"line":2}}}"#;
    match dispatch_frame(body, "0.1.0") {
        Some(Dispatch::CallTool { id, name, arguments }) => {
            assert_eq!(id.unwrap().as_u64(), Some(3));
            assert_eq!(name, "hover");
            assert_eq!(arguments.get_u64("line"), Some(2));
        },
        _ => panic!("expected a tool call"),
    }
    assert!(dispatch_frame(b"{not json", "0.1.0").is_none());
}

#[test]
fn replies_are_framed_with_their_byte_length() {
    let reply = object(vec![member("text", JsonValue::string("é"))]);
    let framed = frame_json(&reply);
    let body = "{\"text\":\"é\"}";
    assert_eq!(framed, format!("Content-Length: {}\r\n\r\n{}", body.len(), body));
    assert_eq!(body.len(), 13);
    assert_eq!(render_json(&object(vec![member("b", JsonValue::Null), member("a", JsonValue::Bool(true))])), "{\"a\":true,\"b\":null}");
}

#[test]
fn json_and_toml_text_are_read() {
    let v = parse_json(br#"{"a":[1,-2,1.5,"x",null,false]}"#).unwrap();
    match v.get("a").unwrap() {
        JsonValue::Array(items) => {
            assert_eq!(items.len(), 6);
            assert_eq!(items[0].as_u64(), Some(1));
            assert!(matches!(&items[1], JsonValue::Number(JsonNumber::NegInt(-2))));
            assert!(matches!(&items[2], JsonValue::Number(JsonNumber::Float(t)) if t == "1.5"));
        },
        _ => panic!("a is not an array"),
    }
    let t = parse_manifest("[package]\nname = \"x\"\n").ok().unwrap();
    assert_eq!(t.get("package").unwrap().get_str("name"), Some("x"));
    assert!(parse_manifest("[package").is_err());
}
