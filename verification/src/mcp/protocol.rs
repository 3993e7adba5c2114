//! The MCP message protocol: which request a message is, the replies that
//! need no outside work, and the envelopes around tool and resource results.
use vstd::prelude::*;
use crate::json::{
    array, json_seq, member, member_seq, object, opt_json, or_null, or_null_value, Json, JsonNumber,
    JsonValue,
};
use crate::mcp::prompts::{argument_view, get_prompts, prompt_table, prompt_views, Prompt};
use crate::mcp::resources::{get_resources, opt_str_view, resource_table, resource_views, Resource};
use crate::mcp::tools::{get_tools, tool_table, tool_views, ToolDefinition};
use crate::text::str_eq;

use crate::wire::{json_parse, parse_json};

verus! {

/// `{"jsonrpc": "2.0", "id": id, key: value}`.
pub open spec fn envelope(id: Json, key: Seq<char>, value: Json) -> Json {
    Json::Object(seq![("jsonrpc"@, Json::Str("2.0"@)), ("id"@, id), (key, value)])
}

/// A JSON-RPC error reply.
pub open spec fn error_reply(id: Json, code: i64, message: Seq<char>) -> Json {
    envelope(
        id,
        "error"@,
        Json::Object(seq![("code"@, Json::NegInt(code)), ("message"@, Json::Str(message))]),
    )
}

/// The request methods the server answers.
#[derive(PartialEq, Eq, Structural, Clone, Copy, Debug)]
pub enum McpMethod {
    Initialize,
    Initialized,
    ToolsList,
    ToolsCall,
    ResourcesList,
    ResourcesRead,
    PromptsList,
    PromptsGet,
    Shutdown,
    Other,
}

/// The method named `m`.
pub open spec fn method_kind(m: Seq<char>) -> McpMethod {
    if m == "initialize"@ {
        McpMethod::Initialize
    } else if m == "initialized"@ {
        McpMethod::Initialized
    } else if m == "tools/list"@ {
        McpMethod::ToolsList
    } else if m == "tools/call"@ {
        McpMethod::ToolsCall
    } else if m == "resources/list"@ {
        McpMethod::ResourcesList
    } else if m == "resources/read"@ {
        McpMethod::ResourcesRead
    } else if m == "prompts/list"@ {
        McpMethod::PromptsList
    } else if m == "prompts/get"@ {
        McpMethod::PromptsGet
    } else if m == "shutdown"@ {
        McpMethod::Shutdown
    } else {
        McpMethod::Other
    }
}

/// The `method` of a message, the empty text when it has none.
pub open spec fn method_of(msg: Json) -> Seq<char> {
    match msg.field_str("method"@) {
        Some(m) => m,
        None => Seq::empty(),
    }
}

/// `params[key]` of a message as text, the empty text when absent.
pub open spec fn param_str(msg: Json, key: Seq<char>) -> Seq<char> {
    match msg.field("params"@) {
        Some(p) => match p.field_str(key) {
            Some(s) => s,
            None => Seq::empty(),
        },
        None => Seq::empty(),
    }
}

/// `params.arguments` of a message, an empty object when absent.
pub open spec fn call_arguments(msg: Json) -> Json {
    match msg.field("params"@) {
        Some(p) => match p.field("arguments"@) {
            Some(a) => a,
            None => Json::Object(Seq::empty()),
        },
        None => Json::Object(Seq::empty()),
    }
}

/// A tool as `tools/list` lists it.
pub open spec fn tool_entry(t: (Seq<char>, Seq<char>, Json)) -> Json {
    Json::Object(
        seq![("name"@, Json::Str(t.0)), ("description"@, Json::Str(t.1)), ("inputSchema"@, t.2)],
    )
}

pub open spec fn opt_text(o: Option<Seq<char>>) -> Json {
    match o {
        Some(s) => Json::Str(s),
        None => Json::Null,
    }
}

/// A resource as `resources/list` lists it.
pub open spec fn resource_entry(r: (Seq<char>, Seq<char>, Option<Seq<char>>, Option<Seq<char>>)) -> Json {
    Json::Object(
        seq![
            ("uri"@, Json::Str(r.0)),
            ("name"@, Json::Str(r.1)),
            ("description"@, opt_text(r.2)),
            ("mimeType"@, opt_text(r.3)),
        ],
    )
}

/// A prompt argument as `prompts/list` lists it.
pub open spec fn argument_entry(a: (Seq<char>, Seq<char>, bool)) -> Json {
    Json::Object(
        seq![
            ("name"@, Json::Str(a.0)),
            ("description"@, Json::Str(a.1)),
            ("required"@, Json::Bool(a.2)),
        ],
    )
}

/// A prompt as `prompts/list` lists it.
pub open spec fn prompt_entry(p: (Seq<char>, Seq<char>, Seq<(Seq<char>, Seq<char>, bool)>)) -> Json {
    Json::Object(
        seq![
            ("name"@, Json::Str(p.0)),
            ("description"@, Json::Str(p.1)),
            (
                "arguments"@,
                Json::Array(p.2.map_values(|a: (Seq<char>, Seq<char>, bool)| argument_entry(a))),
            ),
        ],
    )
}

/// The `initialize` reply.
pub open spec fn initialize_reply(id: Json, version: Seq<char>) -> Json {
    envelope(
        id,
        "result"@,
        Json::Object(
            seq![
                ("protocolVersion"@, Json::Str("2024-11-05"@)),
                (
                    "capabilities"@,
                    Json::Object(
                        seq![
                            ("tools"@, Json::Object(seq![("listChanged"@, Json::Bool(true))])),
                            (
                                "resources"@,
                                Json::Object(
                                    seq![
                                        ("subscribe"@, Json::Bool(true)),
                                        ("listChanged"@, Json::Bool(true)),
                                    ],
                                ),
                            ),
                            ("prompts"@, Json::Object(seq![("listChanged"@, Json::Bool(true))])),
                        ],
                    ),
                ),
                (
                    "serverInfo"@,
                    Json::Object(
                        seq![
                            ("name"@, Json::Str("rust-analyzer-mcp"@)),
                            ("version"@, Json::Str(version)),
                        ],
                    ),
                ),
            ],
        ),
    )
}

/// The message text of each prompt that `prompts/list` announces; the
/// placeholders in braces name the prompt's arguments.
pub open spec fn prompt_text(name: Seq<char>) -> Option<Seq<char>> {
    if name == "analyze_error"@ {
        Some(
            "Analyze this compiler error and suggest fixes:\n\nError: {error_message}\n\nFile: {file_path}"@,
        )
    } else if name == "explain_code"@ {
        Some("Explain what this Rust code does:\n\nFile: {file_path}\n\nLines: {line_start}-{line_end}"@)
    } else if name == "find_similar"@ {
        Some("Find code in this codebase with patterns similar to:\n\nSymbol: {symbol_name}"@)
    } else if name == "analyze_code"@ {
        Some("Analyze the Rust code at this location:\n\nFile: {file_path}\n\nLine: {line}\n\nColumn: {column}"@)
    } else if name == "explain_error"@ {
        Some("Explain this compiler error:\n\nError: {error_message}\n\nFile: {file_path}"@)
    } else {
        None
    }
}

/// The `prompts/get` reply for the prompt `name`: its message, or the error
/// for a prompt that is not offered.
pub open spec fn prompt_get_reply(id: Json, name: Seq<char>) -> Json {
    match prompt_text(name) {
        Some(text) => envelope(
                id,
                "result"@,
                Json::Object(
                    seq![
                        (
                            "messages"@,
                            Json::Array(
                                seq![
                                    Json::Object(
                                        seq![
                                            ("role"@, Json::Str("user"@)),
                                            (
                                                "content"@,
                                                Json::Object(
                                                    seq![
                                                        ("type"@, Json::Str("text"@)),
                                                        ("text"@, Json::Str(text)),
                                                    ],
                                                ),
                                            ),
                                        ],
                                    ),
                                ],
                            ),
                        ),
                    ],
                ),
            ),
        None => error_reply(id, -32602i64, "Prompt not found"@),
    }
}

/// The reply to a message that needs no outside work; `None` for
/// `tools/call` and `resources/read`.
pub open spec fn direct_reply(msg: Json, version: Seq<char>) -> Option<Json> {
    let id = or_null(msg.field("id"@));
    match method_kind(method_of(msg)) {
        McpMethod::Initialize => Some(initialize_reply(id, version)),
        McpMethod::Initialized => Some(
            Json::Object(seq![("jsonrpc"@, Json::Str("2.0"@)), ("id"@, id)]),
        ),
        McpMethod::ToolsList => Some(
            envelope(
                id,
                "result"@,
                Json::Object(
                    seq![
                        (
                            "tools"@,
                            Json::Array(
                                tool_table().map_values(
                                    |t: (Seq<char>, Seq<char>, Json)| tool_entry(t),
                                ),
                            ),
                        ),
                    ],
                ),
            ),
        ),
        McpMethod::ResourcesList => Some(
            envelope(
                id,
                "result"@,
                Json::Object(
                    seq![
                        (
                            "resources"@,
                            Json::Array(
                                resource_table().map_values(
                                    |r: (Seq<char>, Seq<char>, Option<Seq<char>>, Option<Seq<char>>)|
                                        resource_entry(r),
                                ),
                            ),
                        ),
                    ],
                ),
            ),
        ),
        McpMethod::PromptsList => Some(
            envelope(
                id,
                "result"@,
                Json::Object(
                    seq![
                        (
                            "prompts"@,
                            Json::Array(
                                prompt_table().map_values(
                                    |p: (Seq<char>, Seq<char>, Seq<(Seq<char>, Seq<char>, bool)>)|
                                        prompt_entry(p),
                                ),
                            ),
                        ),
                    ],
                ),
            ),
        ),
        McpMethod::PromptsGet => Some(prompt_get_reply(id, param_str(msg, "name"@))),
        McpMethod::Shutdown => Some(envelope(id, "result"@, Json::Null)),
        McpMethod::Other => Some(
            if msg.field("id"@) is Some {
                error_reply(id, -32601i64, "Method not found"@)
            } else {
                Json::Object(Seq::empty())
            },
        ),
        _ => None,
    }
}

/// What a message asks of the server.
pub enum Dispatch {
    /// Send this reply.
    Reply(JsonValue),
    /// Run the tool `name` with `arguments`, and reply to `id`.
    CallTool { id: Option<JsonValue>, name: String, arguments: JsonValue },
    /// Read the resource `uri`, and reply to `id`.
    ReadResource { id: Option<JsonValue>, uri: String },
}

/// Which method a message names.
pub fn classify_method(m: &str) -> (r: McpMethod)
    ensures
        r == method_kind(m@),
{
    if str_eq(m, "initialize") {
        McpMethod::Initialize
    } else if str_eq(m, "initialized") {
        McpMethod::Initialized
    } else if str_eq(m, "tools/list") {
        McpMethod::ToolsList
    } else if str_eq(m, "tools/call") {
        McpMethod::ToolsCall
    } else if str_eq(m, "resources/list") {
        McpMethod::ResourcesList
    } else if str_eq(m, "resources/read") {
        McpMethod::ResourcesRead
    } else if str_eq(m, "prompts/list") {
        McpMethod::PromptsList
    } else if str_eq(m, "prompts/get") {
        McpMethod::PromptsGet
    } else if str_eq(m, "shutdown") {
        McpMethod::Shutdown
    } else {
        McpMethod::Other
    }
}

fn param_text(message: &JsonValue, key: &str) -> (r: String)
    ensures
        r@ == param_str(message.view(), key@),
{
    match message.get("params") {
        Some(p) => match p.get_str(key) {
            Some(s) => String::from_str(s),
            None => String::new(),
        },
        None => String::new(),
    }
}

fn call_arguments_of(message: &JsonValue) -> (r: JsonValue)
    ensures
        r.view() == call_arguments(message.view()),
{
    let empty = object(Vec::new());
    proof {
        assert(member_seq(Seq::<(String, JsonValue)>::empty()) =~= Seq::<(Seq<char>, Json)>::empty());
    }
    match message.get("params") {
        Some(p) => match p.get_cloned("arguments") {
            Some(a) => a,
            None => empty,
        },
        None => empty,
    }
}

/// `{"jsonrpc": "2.0", "id": id, key: value}`.
pub fn envelope_value(id: JsonValue, key: &str, value: JsonValue) -> (r: JsonValue)
    ensures
        r.view() == envelope(id.view(), key@, value.view()),
{
    let ghost iv = id.view();
    let ghost vv = value.view();
    let m = vec![
        member("jsonrpc", JsonValue::string("2.0")),
        member("id", id),
        (String::from_str(key), value),
    ];
    proof {
        assert(member_seq(m@) =~= seq![("jsonrpc"@, Json::Str("2.0"@)), ("id"@, iv), (key@, vv)]);
    }
    object(m)
}

/// A JSON-RPC error reply with a negative `code`.
pub fn error_value(id: JsonValue, code: i64, message: &str) -> (r: JsonValue)
    requires
        code < 0,
    ensures
        r.view() == error_reply(id.view(), code, message@),
{
    let m = vec![
        member("code", JsonValue::Number(JsonNumber::NegInt(code))),
        member("message", JsonValue::string(message)),
    ];
    proof {
        assert(member_seq(m@) =~= seq![("code"@, Json::NegInt(code)), ("message"@, Json::Str(message@))]);
    }
    envelope_value(id, "error", object(m))
}

fn one_member(key: &str, value: JsonValue) -> (r: JsonValue)
    ensures
        r.view() == Json::Object(seq![(key@, value.view())]),
{
    let ghost vv = value.view();
    let m = vec![(String::from_str(key), value)];
    proof {
        assert(member_seq(m@) =~= seq![(key@, vv)]);
    }
    object(m)
}

fn list_changed() -> (r: JsonValue)
    ensures
        r.view() == Json::Object(seq![("listChanged"@, Json::Bool(true))]),
{
    one_member("listChanged", JsonValue::Bool(true))
}

/// The `initialize` reply for a server of the given version.
pub fn initialize_value(id: JsonValue, version: &str) -> (r: JsonValue)
    ensures
        r.view() == initialize_reply(id.view(), version@),
{
    let res = vec![member("subscribe", JsonValue::Bool(true)), member("listChanged", JsonValue::Bool(true))];
    proof {
        assert(member_seq(res@) =~= seq![("subscribe"@, Json::Bool(true)), ("listChanged"@, Json::Bool(true))]);
    }
    let resources = object(res);
    let ghost rv = resources.view();
    let tools = list_changed();
    let prompts = list_changed();
    let ghost tv = tools.view();
    let caps = vec![member("tools", tools), member("resources", resources), member("prompts", prompts)];
    proof {
        assert(member_seq(caps@) =~= seq![("tools"@, tv), ("resources"@, rv), ("prompts"@, tv)]);
    }
    let capabilities = object(caps);
    let ghost cv = capabilities.view();
    let info = vec![member("name", JsonValue::string("rust-analyzer-mcp")), member("version", JsonValue::string(version))];
    proof {
        assert(member_seq(info@) =~= seq![("name"@, Json::Str("rust-analyzer-mcp"@)), ("version"@, Json::Str(version@))]);
    }
    let server_info = object(info);
    let ghost sv = server_info.view();
    let result = vec![
        member("protocolVersion", JsonValue::string("2024-11-05")),
        member("capabilities", capabilities),
        member("serverInfo", server_info),
    ];
    proof {
        assert(member_seq(result@) =~= seq![
            ("protocolVersion"@, Json::Str("2024-11-05"@)),
            ("capabilities"@, cv),
            ("serverInfo"@, sv),
        ]);
    }
    envelope_value(id, "result", object(result))
}

fn tool_entry_value(t: &ToolDefinition) -> (r: JsonValue)
    ensures
        r.view() == tool_entry((t.name@, t.description@, t.input_schema.view())),
{
    let schema = t.input_schema.deep_clone();
    let ghost sv = schema.view();
    let m = vec![
        member("name", JsonValue::string(t.name)),
        member("description", JsonValue::string(t.description)),
        member("inputSchema", schema),
    ];
    proof {
        assert(member_seq(m@) =~= seq![
            ("name"@, Json::Str(t.name@)),
            ("description"@, Json::Str(t.description@)),
            ("inputSchema"@, sv),
        ]);
    }
    object(m)
}

/// The `tools/list` reply.
pub fn tools_list_value(id: JsonValue) -> (r: JsonValue)
    ensures
        r.view() == envelope(
            id.view(),
            "result"@,
            Json::Object(
                seq![
                    (
                        "tools"@,
                        Json::Array(
                            tool_table().map_values(|t: (Seq<char>, Seq<char>, Json)| tool_entry(t)),
                        ),
                    ),
                ],
            ),
        ),
{
    let tools = get_tools();
    let mut items: Vec<JsonValue> = Vec::new();
    let mut i: usize = 0;
    while i < tools.len()
        invariant
            i <= tools@.len(),
            tool_views(tools@) == tool_table(),
            items@.len() == i,
            forall|k: int| 0 <= k < i ==> #[trigger] items@[k].view() == tool_entry(tool_table()[k]),
        decreases tools.len() - i,
    {
        proof {
            assert(tool_views(tools@)[i as int] == tool_table()[i as int]);
        }
        items.push(tool_entry_value(&tools[i]));
        i = i + 1;
    }
    proof {
        assert(json_seq(items@) =~= tool_table().map_values(|t: (Seq<char>, Seq<char>, Json)| tool_entry(t)));
    }
    envelope_value(id, "result", one_member("tools", array(items)))
}

fn opt_text_value(o: Option<&str>) -> (r: JsonValue)
    ensures
        r.view() == opt_text(opt_str_view(o)),
{
    match o {
        Some(s) => JsonValue::string(s),
        None => JsonValue::Null,
    }
}

fn resource_entry_value(res: &Resource) -> (r: JsonValue)
    ensures
        r.view() == resource_entry(
            (res.uri@, res.name@, opt_str_view(res.description), opt_str_view(res.mime_type)),
        ),
{
    let m = vec![
        member("uri", JsonValue::string(res.uri)),
        member("name", JsonValue::string(res.name)),
        member("description", opt_text_value(res.description)),
        member("mimeType", opt_text_value(res.mime_type)),
    ];
    proof {
        assert(member_seq(m@) =~= seq![
            ("uri"@, Json::Str(res.uri@)),
            ("name"@, Json::Str(res.name@)),
            ("description"@, opt_text(opt_str_view(res.description))),
            ("mimeType"@, opt_text(opt_str_view(res.mime_type))),
        ]);
    }
    object(m)
}

/// The `resources/list` reply.
pub fn resources_list_value(id: JsonValue) -> (r: JsonValue)
    ensures
        r.view() == envelope(
            id.view(),
            "result"@,
            Json::Object(
                seq![
                    (
                        "resources"@,
                        Json::Array(
                            resource_table().map_values(
                                |r: (Seq<char>, Seq<char>, Option<Seq<char>>, Option<Seq<char>>)|
                                    resource_entry(r),
                            ),
                        ),
                    ),
                ],
            ),
        ),
{
    let resources = get_resources();
    let mut items: Vec<JsonValue> = Vec::new();
    let mut i: usize = 0;
    while i < resources.len()
        invariant
            i <= resources@.len(),
            resource_views(resources@) == resource_table(),
            items@.len() == i,
            forall|k: int| 0 <= k < i ==> #[trigger] items@[k].view() == resource_entry(resource_table()[k]),
        decreases resources.len() - i,
    {
        proof {
            assert(resource_views(resources@)[i as int] == resource_table()[i as int]);
        }
        items.push(resource_entry_value(&resources[i]));
        i = i + 1;
    }
    proof {
        assert(json_seq(items@) =~= resource_table().map_values(
            |r: (Seq<char>, Seq<char>, Option<Seq<char>>, Option<Seq<char>>)| resource_entry(r),
        ));
    }
    envelope_value(id, "result", one_member("resources", array(items)))
}

fn prompt_entry_value(p: &Prompt) -> (r: JsonValue)
    ensures
        r.view() == prompt_entry(
            (p.name@, p.description@, p.arguments@.map_values(|a: crate::mcp::prompts::PromptArgument| argument_view(a))),
        ),
{
    let mut args: Vec<JsonValue> = Vec::new();
    let mut i: usize = 0;
    while i < p.arguments.len()
        invariant
            i <= p.arguments@.len(),
            args@.len() == i,
            forall|k: int| 0 <= k < i ==> #[trigger] args@[k].view() == argument_entry(argument_view(p.arguments@[k])),
        decreases p.arguments.len() - i,
    {
        let a = &p.arguments[i];
        let m = vec![
            member("name", JsonValue::string(a.name)),
            member("description", JsonValue::string(a.description)),
            member("required", JsonValue::Bool(a.required)),
        ];
        proof {
            assert(member_seq(m@) =~= seq![
                ("name"@, Json::Str(a.name@)),
                ("description"@, Json::Str(a.description@)),
                ("required"@, Json::Bool(a.required)),
            ]);
        }
        args.push(object(m));
        i = i + 1;
    }
    let ghost av = p.arguments@.map_values(|a: crate::mcp::prompts::PromptArgument| argument_view(a));
    proof {
        assert(json_seq(args@) =~= av.map_values(|a: (Seq<char>, Seq<char>, bool)| argument_entry(a)));
    }
    let arr = array(args);
    let ghost arv = arr.view();
    let m = vec![
        member("name", JsonValue::string(p.name)),
        member("description", JsonValue::string(p.description)),
        member("arguments", arr),
    ];
    proof {
        assert(member_seq(m@) =~= seq![
            ("name"@, Json::Str(p.name@)),
            ("description"@, Json::Str(p.description@)),
            ("arguments"@, arv),
        ]);
    }
    object(m)
}

/// The `prompts/list` reply.
pub fn prompts_list_value(id: JsonValue) -> (r: JsonValue)
    ensures
        r.view() == envelope(
            id.view(),
            "result"@,
            Json::Object(
                seq![
                    (
                        "prompts"@,
                        Json::Array(
                            prompt_table().map_values(
                                |p: (Seq<char>, Seq<char>, Seq<(Seq<char>, Seq<char>, bool)>)|
                                    prompt_entry(p),
                            ),
                        ),
                    ),
                ],
            ),
        ),
{
    let prompts = get_prompts();
    let mut items: Vec<JsonValue> = Vec::new();
    let mut i: usize = 0;
    while i < prompts.len()
        invariant
            i <= prompts@.len(),
            prompt_views(prompts@) == prompt_table(),
            items@.len() == i,
            forall|k: int| 0 <= k < i ==> #[trigger] items@[k].view() == prompt_entry(prompt_table()[k]),
        decreases prompts.len() - i,
    {
        proof {
            assert(prompt_views(prompts@)[i as int] == prompt_table()[i as int]);
        }
        items.push(prompt_entry_value(&prompts[i]));
        i = i + 1;
    }
    proof {
        assert(json_seq(items@) =~= prompt_table().map_values(
            |p: (Seq<char>, Seq<char>, Seq<(Seq<char>, Seq<char>, bool)>)| prompt_entry(p),
        ));
    }
    envelope_value(id, "result", one_member("prompts", array(items)))
}

/// The message text of a prompt, if it is one that is offered.
fn prompt_message(name: &str) -> (r: Option<&'static str>)
    ensures
        match r {
            Some(t) => prompt_text(name@) == Some(t@),
            None => prompt_text(name@) is None,
        },
{
    if str_eq(name, "analyze_error") {
        Some(
            "Analyze this compiler error and suggest fixes:\n\nError: {error_message}\n\nFile: {file_path}",
        )
    } else if str_eq(name, "explain_code") {
        Some("Explain what this Rust code does:\n\nFile: {file_path}\n\nLines: {line_start}-{line_end}")
    } else if str_eq(name, "find_similar") {
        Some("Find code in this codebase with patterns similar to:\n\nSymbol: {symbol_name}")
    } else if str_eq(name, "analyze_code") {
        Some("Analyze the Rust code at this location:\n\nFile: {file_path}\n\nLine: {line}\n\nColumn: {column}")
    } else if str_eq(name, "explain_error") {
        Some("Explain this compiler error:\n\nError: {error_message}\n\nFile: {file_path}")
    } else {
        None
    }
}

/// The `prompts/get` reply for the prompt `name`.
pub fn prompt_get_value(id: JsonValue, name: &str) -> (r: JsonValue)
    ensures
        r.view() == prompt_get_reply(id.view(), name@),
{
    if let Some(text) = prompt_message(name) {
        let c = vec![member("type", JsonValue::string("text")), member("text", JsonValue::string(text))];
        proof {
            assert(member_seq(c@) =~= seq![
                ("type"@, Json::Str("text"@)),
                ("text"@, Json::Str(text@)),
            ]);
        }
        let content = object(c);
        let ghost cv = content.view();
        let msg = vec![member("role", JsonValue::string("user")), member("content", content)];
        proof {
            assert(member_seq(msg@) =~= seq![("role"@, Json::Str("user"@)), ("content"@, cv)]);
        }
        let m = object(msg);
        let ghost mv = m.view();
        let msgs = vec![m];
        proof {
            assert(json_seq(msgs@) =~= seq![mv]);
        }
        envelope_value(id, "result", one_member("messages", array(msgs)))
    } else {
        error_value(id, -32602, "Prompt not found")
    }
}

/// What a message asks of the server, as `handle_message` decides it: a
/// tool call or a resource read with what the message names, else the direct
/// reply.
pub open spec fn dispatches(msg: Json, version: Seq<char>, d: Dispatch) -> bool {
    &&& method_kind(method_of(msg)) == McpMethod::ToolsCall ==> (d matches Dispatch::CallTool {
        id,
        name,
        arguments,
    } && opt_json(id) == msg.field("id"@) && name@ == param_str(msg, "name"@) && arguments.view()
        == call_arguments(msg))
    &&& method_kind(method_of(msg)) == McpMethod::ResourcesRead ==> (d matches Dispatch::ReadResource {
        id,
        uri,
    } && opt_json(id) == msg.field("id"@) && uri@ == param_str(msg, "uri"@))
    &&& direct_reply(msg, version) matches Some(reply) ==> (d matches Dispatch::Reply(v) && v.view()
        == reply)
}

/// Decides what to do with a message: the direct reply when no outside work
/// is needed, else the tool call or resource read it asks for.
pub fn handle_message(message: &JsonValue, server_version: &str) -> (r: Dispatch)
    ensures
        dispatches(message.view(), server_version@, r),
{
    let method = match message.get_str("method") {
        Some(m) => m,
        None => "",
    };
    proof {
        reveal_strlit("");
        if message.view().field_str("method"@) is None {
            assert(""@ =~= Seq::<char>::empty());
        }
    }
    let kind = classify_method(method);
    let id = message.get_cloned("id");
    let has_id = id.is_some();
    match kind {
        McpMethod::Initialize => Dispatch::Reply(initialize_value(or_null_value(id), server_version)),
        McpMethod::Initialized => {
            let idv = or_null_value(id);
            let ghost iv = idv.view();
            let m = vec![member("jsonrpc", JsonValue::string("2.0")), member("id", idv)];
            proof {
                assert(member_seq(m@) =~= seq![("jsonrpc"@, Json::Str("2.0"@)), ("id"@, iv)]);
            }
            Dispatch::Reply(object(m))
        },
        McpMethod::ToolsList => Dispatch::Reply(tools_list_value(or_null_value(id))),
        McpMethod::ToolsCall => Dispatch::CallTool {
            id,
            name: param_text(message, "name"),
            arguments: call_arguments_of(message),
        },
        McpMethod::ResourcesList => Dispatch::Reply(resources_list_value(or_null_value(id))),
        McpMethod::ResourcesRead => Dispatch::ReadResource { id, uri: param_text(message, "uri") },
        McpMethod::PromptsList => Dispatch::Reply(prompts_list_value(or_null_value(id))),
        McpMethod::PromptsGet => {
            let name = param_text(message, "name");
            Dispatch::Reply(prompt_get_value(or_null_value(id), name.as_str()))
        },
        McpMethod::Shutdown => Dispatch::Reply(envelope_value(or_null_value(id), "result", JsonValue::Null)),
        McpMethod::Other => {
            if has_id {
                Dispatch::Reply(error_value(or_null_value(id), -32601, "Method not found"))
            } else {
                let e: Vec<(String, JsonValue)> = Vec::new();
                proof {
                    assert(member_seq(e@) =~= Seq::<(Seq<char>, Json)>::empty());
                }
                Dispatch::Reply(object(e))
            }
        },
    }
}

/// Reads a framed message body as JSON and decides what it asks for;
/// `None` when the body is not JSON.
pub fn dispatch_frame(body: &[u8], server_version: &str) -> (r: Option<Dispatch>)
    ensures
        match json_parse(body@) {
            Some(m) => r matches Some(d) && dispatches(m, server_version@, d),
            None => r is None,
        },
{
    match parse_json(body) {
        Some(message) => Some(handle_message(&message, server_version)),
        None => None,
    }
}

/// The name a handled message is counted under in the metrics: the reply's
/// `method` text, else `response`.
pub fn response_label(reply: &JsonValue) -> (r: String)
    ensures
        r@ == match reply.view().field_str("method"@) {
            Some(m) => m,
            None => "response"@,
        },
{
    match reply.get_str("method") {
        Some(m) => String::from_str(m),
        None => String::from_str("response"),
    }
}

/// The tools that a `tools/call` can run, and the unknown ones.
#[derive(PartialEq, Eq, Structural, Clone, Copy, Debug)]
pub enum ToolKind {
    OpenProject,
    Status,
    GotoDefinition,
    FindReferences,
    Hover,
    Completions,
    GetDiagnostics,
    CodeAction,
    RenameSymbol,
    WorkspaceSymbol,
    FileStructure,
    FormatFile,
    InlayHints,
    ExpandMacro,
    Runnables,
    ViewHir,
    CheckUpdate,
    UpdateRustAnalyzer,
    HealthCheck,
    SwitchWorkspace,
    ListWorkspaces,
    GotoTypeDefinition,
    GotoImplementation,
    Unknown,
}

/// The tool a `tools/call` names.
pub open spec fn tool_kind(name: Seq<char>) -> ToolKind {
    if name == "open_project"@ {
        ToolKind::OpenProject
    } else if name == "status"@ {
        ToolKind::Status
    } else if name == "goto_definition"@ {
        ToolKind::GotoDefinition
    } else if name == "find_references"@ {
        ToolKind::FindReferences
    } else if name == "hover"@ {
        ToolKind::Hover
    } else if name == "completions"@ {
        ToolKind::Completions
    } else if name == "get_diagnostics"@ {
        ToolKind::GetDiagnostics
    } else if name == "code_action"@ {
        ToolKind::CodeAction
    } else if name == "rename_symbol"@ {
        ToolKind::RenameSymbol
    } else if name == "workspace_symbol"@ {
        ToolKind::WorkspaceSymbol
    } else if name == "file_structure"@ {
        ToolKind::FileStructure
    } else if name == "format_file"@ {
        ToolKind::FormatFile
    } else if name == "inlay_hints"@ {
        ToolKind::InlayHints
    } else if name == "expand_macro"@ {
        ToolKind::ExpandMacro
    } else if name == "runnables"@ {
        ToolKind::Runnables
    } else if name == "view_hir"@ {
        ToolKind::ViewHir
    } else if name == "check_update"@ {
        ToolKind::CheckUpdate
    } else if name == "update_rust_analyzer"@ {
        ToolKind::UpdateRustAnalyzer
    } else if name == "health_check"@ {
        ToolKind::HealthCheck
    } else if name == "switch_workspace"@ {
        ToolKind::SwitchWorkspace
    } else if name == "list_workspaces"@ {
        ToolKind::ListWorkspaces
    } else if name == "goto_type_definition"@ {
        ToolKind::GotoTypeDefinition
    } else if name == "goto_implementation"@ {
        ToolKind::GotoImplementation
    } else if name == "diagnostics"@ {
        ToolKind::GetDiagnostics
    } else if name == "document_symbol"@ {
        ToolKind::FileStructure
    } else if name == "format"@ {
        ToolKind::FormatFile
    } else if name == "rename"@ {
        ToolKind::RenameSymbol
    } else {
        ToolKind::Unknown
    }
}

/// Which tool a `tools/call` names.
pub fn route_tool(name: &str) -> (r: ToolKind)
    ensures
        r == tool_kind(name@),
{
    if str_eq(name, "open_project") {
        ToolKind::OpenProject
    } else if str_eq(name, "status") {
        ToolKind::Status
    } else if str_eq(name, "goto_definition") {
        ToolKind::GotoDefinition
    } else if str_eq(name, "find_references") {
        ToolKind::FindReferences
    } else if str_eq(name, "hover") {
        ToolKind::Hover
    } else if str_eq(name, "completions") {
        ToolKind::Completions
    } else if str_eq(name, "get_diagnostics") {
        ToolKind::GetDiagnostics
    } else if str_eq(name, "code_action") {
        ToolKind::CodeAction
    } else if str_eq(name, "rename_symbol") {
        ToolKind::RenameSymbol
    } else if str_eq(name, "workspace_symbol") {
        ToolKind::WorkspaceSymbol
    } else if str_eq(name, "file_structure") {
        ToolKind::FileStructure
    } else if str_eq(name, "format_file") {
        ToolKind::FormatFile
    } else if str_eq(name, "inlay_hints") {
        ToolKind::InlayHints
    } else if str_eq(name, "expand_macro") {
        ToolKind::ExpandMacro
    } else if str_eq(name, "runnables") {
        ToolKind::Runnables
    } else if str_eq(name, "view_hir") {
        ToolKind::ViewHir
    } else if str_eq(name, "check_update") {
        ToolKind::CheckUpdate
    } else if str_eq(name, "update_rust_analyzer") {
        ToolKind::UpdateRustAnalyzer
    } else if str_eq(name, "health_check") {
        ToolKind::HealthCheck
    } else if str_eq(name, "switch_workspace") {
        ToolKind::SwitchWorkspace
    } else if str_eq(name, "list_workspaces") {
        ToolKind::ListWorkspaces
    } else if str_eq(name, "goto_type_definition") {
        ToolKind::GotoTypeDefinition
    } else if str_eq(name, "goto_implementation") {
        ToolKind::GotoImplementation
    } else if str_eq(name, "diagnostics") {
        ToolKind::GetDiagnostics
    } else if str_eq(name, "document_symbol") {
        ToolKind::FileStructure
    } else if str_eq(name, "format") {
        ToolKind::FormatFile
    } else if str_eq(name, "rename") {
        ToolKind::RenameSymbol
    } else {
        ToolKind::Unknown
    }
}

/// The tool at position `i` of the list is one that `tools/call` runs.
#[verifier::spinoff_prover]
#[verifier::rlimit(100)]
proof fn lemma_listed_tool_is_callable(i: int)
    requires
        0 <= i < tool_table().len(),
    ensures
        tool_kind(tool_table()[i].0) != ToolKind::Unknown,
{
    assert(tool_table().len() == 27);
        if i == 0 {
            assert(tool_table()[0].0 == "open_project"@);
            assert(tool_kind("open_project"@) != ToolKind::Unknown);
        } else if i == 1 {
            assert(tool_table()[1].0 == "status"@);
            assert(tool_kind("status"@) != ToolKind::Unknown);
        } else if i == 2 {
            assert(tool_table()[2].0 == "goto_definition"@);
            assert(tool_kind("goto_definition"@) != ToolKind::Unknown);
        } else if i == 3 {
            assert(tool_table()[3].0 == "find_references"@);
            assert(tool_kind("find_references"@) != ToolKind::Unknown);
        } else if i == 4 {
            assert(tool_table()[4].0 == "hover"@);
            assert(tool_kind("hover"@) != ToolKind::Unknown);
        } else if i == 5 {
            assert(tool_table()[5].0 == "completions"@);
            assert(tool_kind("completions"@) != ToolKind::Unknown);
        } else if i == 6 {
            assert(tool_table()[6].0 == "get_diagnostics"@);
            assert(tool_kind("get_diagnostics"@) != ToolKind::Unknown);
        } else if i == 7 {
            assert(tool_table()[7].0 == "code_action"@);
            assert(tool_kind("code_action"@) != ToolKind::Unknown);
        } else if i == 8 {
            assert(tool_table()[8].0 == "rename_symbol"@);
            assert(tool_kind("rename_symbol"@) != ToolKind::Unknown);
        } else if i == 9 {
            assert(tool_table()[9].0 == "workspace_symbol"@);
            assert(tool_kind("workspace_symbol"@) != ToolKind::Unknown);
        } else if i == 10 {
            assert(tool_table()[10].0 == "file_structure"@);
            assert(tool_kind("file_structure"@) != ToolKind::Unknown);
        } else if i == 11 {
            assert(tool_table()[11].0 == "format_file"@);
            assert(tool_kind("format_file"@) != ToolKind::Unknown);
        } else if i == 12 {
            assert(tool_table()[12].0 == "inlay_hints"@);
            assert(tool_kind("inlay_hints"@) != ToolKind::Unknown);
        } else if i == 13 {
            assert(tool_table()[13].0 == "expand_macro"@);
            assert(tool_kind("expand_macro"@) != ToolKind::Unknown);
        } else if i == 14 {
            assert(tool_table()[14].0 == "runnables"@);
            assert(tool_kind("runnables"@) != ToolKind::Unknown);
        } else if i == 15 {
            assert(tool_table()[15].0 == "view_hir"@);
            assert(tool_kind("view_hir"@) != ToolKind::Unknown);
        } else if i == 16 {
            assert(tool_table()[16].0 == "check_update"@);
            assert(tool_kind("check_update"@) != ToolKind::Unknown);
        } else if i == 17 {
            assert(tool_table()[17].0 == "update_rust_analyzer"@);
            assert(tool_kind("update_rust_analyzer"@) != ToolKind::Unknown);
        } else if i == 18 {
            assert(tool_table()[18].0 == "health_check"@);
            assert(tool_kind("health_check"@) != ToolKind::Unknown);
        } else if i == 19 {
            assert(tool_table()[19].0 == "switch_workspace"@);
            assert(tool_kind("switch_workspace"@) != ToolKind::Unknown);
        } else if i == 20 {
            assert(tool_table()[20].0 == "list_workspaces"@);
            assert(tool_kind("list_workspaces"@) != ToolKind::Unknown);
        } else if i == 21 {
            assert(tool_table()[21].0 == "goto_type_definition"@);
            assert(tool_kind("goto_type_definition"@) != ToolKind::Unknown);
        } else if i == 22 {
            assert(tool_table()[22].0 == "goto_implementation"@);
            assert(tool_kind("goto_implementation"@) != ToolKind::Unknown);
        } else if i == 23 {
            assert(tool_table()[23].0 == "diagnostics"@);
            assert(tool_kind("diagnostics"@) != ToolKind::Unknown);
        } else if i == 24 {
            assert(tool_table()[24].0 == "document_symbol"@);
            assert(tool_kind("document_symbol"@) != ToolKind::Unknown);
        } else if i == 25 {
            assert(tool_table()[25].0 == "format"@);
            assert(tool_kind("format"@) != ToolKind::Unknown);
        } else if i == 26 {
            assert(tool_table()[26].0 == "rename"@);
            assert(tool_kind("rename"@) != ToolKind::Unknown);
        }
}

/// Law: every tool that `tools/list` announces is one that `tools/call` runs.
pub proof fn law_listed_tools_are_callable()
    ensures
        forall|i: int|
            0 <= i < tool_table().len() ==> tool_kind(#[trigger] tool_table()[i].0) != ToolKind::Unknown,
{
    assert forall|i: int| 0 <= i < tool_table().len() implies tool_kind(
        #[trigger] tool_table()[i].0,
    ) != ToolKind::Unknown by {
        lemma_listed_tool_is_callable(i);
    }
}

/// Law: every tool that `tools/call` runs is announced by `tools/list`.
#[verifier::spinoff_prover]
pub proof fn law_callable_tools_are_listed(name: Seq<char>)
    requires
        tool_kind(name) != ToolKind::Unknown,
    ensures
        exists|i: int| 0 <= i < tool_table().len() && tool_table()[i].0 == name,
{
    if name == "open_project"@ {
        assert(tool_table()[0].0 == name);
    }
    if name == "status"@ {
        assert(tool_table()[1].0 == name);
    }
    if name == "goto_definition"@ {
        assert(tool_table()[2].0 == name);
    }
    if name == "find_references"@ {
        assert(tool_table()[3].0 == name);
    }
    if name == "hover"@ {
        assert(tool_table()[4].0 == name);
    }
    if name == "completions"@ {
        assert(tool_table()[5].0 == name);
    }
    if name == "get_diagnostics"@ {
        assert(tool_table()[6].0 == name);
    }
    if name == "code_action"@ {
        assert(tool_table()[7].0 == name);
    }
    if name == "rename_symbol"@ {
        assert(tool_table()[8].0 == name);
    }
    if name == "workspace_symbol"@ {
        assert(tool_table()[9].0 == name);
    }
    if name == "file_structure"@ {
        assert(tool_table()[10].0 == name);
    }
    if name == "format_file"@ {
        assert(tool_table()[11].0 == name);
    }
    if name == "inlay_hints"@ {
        assert(tool_table()[12].0 == name);
    }
    if name == "expand_macro"@ {
        assert(tool_table()[13].0 == name);
    }
    if name == "runnables"@ {
        assert(tool_table()[14].0 == name);
    }
    if name == "view_hir"@ {
        assert(tool_table()[15].0 == name);
    }
    if name == "check_update"@ {
        assert(tool_table()[16].0 == name);
    }
    if name == "update_rust_analyzer"@ {
        assert(tool_table()[17].0 == name);
    }
    if name == "health_check"@ {
        assert(tool_table()[18].0 == name);
    }
    if name == "switch_workspace"@ {
        assert(tool_table()[19].0 == name);
    }
    if name == "list_workspaces"@ {
        assert(tool_table()[20].0 == name);
    }
    if name == "goto_type_definition"@ {
        assert(tool_table()[21].0 == name);
    }
    if name == "goto_implementation"@ {
        assert(tool_table()[22].0 == name);
    }
    if name == "diagnostics"@ {
        assert(tool_table()[23].0 == name);
    }
    if name == "document_symbol"@ {
        assert(tool_table()[24].0 == name);
    }
    if name == "format"@ {
        assert(tool_table()[25].0 == name);
    }
    if name == "rename"@ {
        assert(tool_table()[26].0 == name);
    }
}

/// The reply to a `tools/call` whose tool gave `result`.
pub fn tool_reply(id: Option<JsonValue>, result: JsonValue) -> (r: JsonValue)
    ensures
        r.view() == envelope(or_null(opt_json(id)), "result"@, result.view()),
{
    envelope_value(or_null_value(id), "result", result)
}

/// `{"content": [{"type": "text", "text": text}]}`.
pub open spec fn text_content(text: Seq<char>) -> Json {
    Json::Object(
        seq![
            (
                "content"@,
                Json::Array(
                    seq![
                        Json::Object(seq![("type"@, Json::Str("text"@)), ("text"@, Json::Str(text))]),
                    ],
                ),
            ),
        ],
    )
}

/// The same content marked as an error: `"isError": true` is added.
pub open spec fn error_content(text: Seq<char>) -> Json {
    Json::Object(
        seq![
            (
                "content"@,
                Json::Array(
                    seq![
                        Json::Object(seq![("type"@, Json::Str("text"@)), ("text"@, Json::Str(text))]),
                    ],
                ),
            ),
            ("isError"@, Json::Bool(true)),
        ],
    )
}

fn content_array(text: String) -> (r: JsonValue)
    ensures
        r.view() == Json::Array(
            seq![Json::Object(seq![("type"@, Json::Str("text"@)), ("text"@, Json::Str(text@))])],
        ),
{
    let ghost tv = text@;
    let m = vec![member("type", JsonValue::string("text")), (String::from_str("text"), JsonValue::Str(text))];
    proof {
        assert(member_seq(m@) =~= seq![("type"@, Json::Str("text"@)), ("text"@, Json::Str(tv))]);
    }
    let o = object(m);
    let ghost ov = o.view();
    let items = vec![o];
    proof {
        assert(json_seq(items@) =~= seq![ov]);
    }
    array(items)
}

/// A tool result holding `text`.
pub fn text_result(text: String) -> (r: JsonValue)
    ensures
        r.view() == text_content(text@),
{
    one_member("content", content_array(text))
}

/// A tool result holding `text`, marked as an error.
pub fn error_result(text: String) -> (r: JsonValue)
    ensures
        r.view() == error_content(text@),
{
    let c = content_array(text);
    let ghost cv = c.view();
    let m = vec![member("content", c), member("isError", JsonValue::Bool(true))];
    proof {
        assert(member_seq(m@) =~= seq![("content"@, cv), ("isError"@, Json::Bool(true))]);
    }
    object(m)
}

/// The result of a `tools/call` that names no tool of this server.
pub fn unknown_tool_result(name: &str) -> (r: JsonValue)
    ensures
        r.view() == error_content("Unknown tool: "@ + name@),
{
    let mut text = String::from_str("Unknown tool: ");
    text.append(name);
    error_result(text)
}

/// The resources that `resources/read` serves, and the unknown ones.
#[derive(PartialEq, Eq, Structural, Clone, Copy, Debug)]
pub enum ResourceKind {
    HealthStatus,
    ServerMetrics,
    CurrentConfig,
    RustAnalyzerVersion,
    NotFound,
}

/// The resource a URI names.
pub open spec fn resource_kind(uri: Seq<char>) -> ResourceKind {
    if uri == "health://status"@ {
        ResourceKind::HealthStatus
    } else if uri == "metrics://server"@ {
        ResourceKind::ServerMetrics
    } else if uri == "config://current"@ {
        ResourceKind::CurrentConfig
    } else if uri == "version://rust-analyzer"@ || uri == "rust://version"@ {
        ResourceKind::RustAnalyzerVersion
    } else if uri == "rust://config"@ {
        ResourceKind::CurrentConfig
    } else {
        ResourceKind::NotFound
    }
}

/// Which resource a `resources/read` names.
pub fn route_resource(uri: &str) -> (r: ResourceKind)
    ensures
        r == resource_kind(uri@),
{
    if str_eq(uri, "health://status") {
        ResourceKind::HealthStatus
    } else if str_eq(uri, "metrics://server") {
        ResourceKind::ServerMetrics
    } else if str_eq(uri, "config://current") {
        ResourceKind::CurrentConfig
    } else if str_eq(uri, "version://rust-analyzer") || str_eq(uri, "rust://version") {
        ResourceKind::RustAnalyzerVersion
    } else if str_eq(uri, "rust://config") {
        ResourceKind::CurrentConfig
    } else {
        ResourceKind::NotFound
    }
}

/// The reply carrying the contents `text` of the resource `uri`.
pub open spec fn resource_contents_reply(id: Json, uri: Seq<char>, text: Seq<char>) -> Json {
    envelope(
        id,
        "result"@,
        Json::Object(
            seq![
                (
                    "contents"@,
                    Json::Array(
                        seq![
                            Json::Object(
                                seq![
                                    ("uri"@, Json::Str(uri)),
                                    ("mimeType"@, Json::Str("application/json"@)),
                                    ("text"@, Json::Str(text)),
                                ],
                            ),
                        ],
                    ),
                ),
            ],
        ),
    )
}

/// The reply to a `resources/read` of `uri` whose contents are `text`.
pub fn resource_reply(id: Option<JsonValue>, uri: &str, text: String) -> (r: JsonValue)
    ensures
        r.view() == resource_contents_reply(or_null(opt_json(id)), uri@, text@),
{
    let ghost tv = text@;
    let m = vec![
        member("uri", JsonValue::string(uri)),
        member("mimeType", JsonValue::string("application/json")),
        (String::from_str("text"), JsonValue::Str(text)),
    ];
    proof {
        assert(member_seq(m@) =~= seq![
            ("uri"@, Json::Str(uri@)),
            ("mimeType"@, Json::Str("application/json"@)),
            ("text"@, Json::Str(tv)),
        ]);
    }
    let o = object(m);
    let ghost ov = o.view();
    let items = vec![o];
    proof {
        assert(json_seq(items@) =~= seq![ov]);
    }
    envelope_value(or_null_value(id), "result", one_member("contents", array(items)))
}

/// The reply to a `resources/read` of an unknown resource.
pub fn resource_not_found(id: Option<JsonValue>) -> (r: JsonValue)
    ensures
        r.view() == error_reply(or_null(opt_json(id)), -32602i64, "Resource not found"@),
{
    error_value(or_null_value(id), -32602, "Resource not found")
}

/// Law: every resource that `resources/list` announces is one that
/// `resources/read` serves, and only those are served.
pub proof fn law_listed_resources_are_readable(uri: Seq<char>)
    ensures
        resource_kind(uri) != ResourceKind::NotFound <==> exists|i: int|
            0 <= i < resource_table().len() && resource_table()[i].0 == uri,
{
    if exists|i: int| 0 <= i < resource_table().len() && resource_table()[i].0 == uri {
        let i = choose|i: int| 0 <= i < resource_table().len() && resource_table()[i].0 == uri;
        assert(resource_table().len() == 6);
        if i == 0 {
        } else if i == 1 {
        } else if i == 2 {
        } else if i == 3 {
        } else if i == 4 {
        } else {
        }
    }
    if uri == "health://status"@ {
        assert(resource_table()[0].0 == uri);
    } else if uri == "metrics://server"@ {
        assert(resource_table()[1].0 == uri);
    } else if uri == "config://current"@ {
        assert(resource_table()[2].0 == uri);
    } else if uri == "version://rust-analyzer"@ {
        assert(resource_table()[3].0 == uri);
    } else if uri == "rust://version"@ {
        assert(resource_table()[4].0 == uri);
    } else if uri == "rust://config"@ {
        assert(resource_table()[5].0 == uri);
    }
}

/// Law: `prompts/get` answers exactly the prompts that `prompts/list`
/// announces; any other name gets the error reply.
pub proof fn law_listed_prompts_are_served(name: Seq<char>)
    ensures
        prompt_text(name) is Some <==> exists|i: int|
            0 <= i < prompt_table().len() && prompt_table()[i].0 == name,
{
    if exists|i: int| 0 <= i < prompt_table().len() && prompt_table()[i].0 == name {
        let i = choose|i: int| 0 <= i < prompt_table().len() && prompt_table()[i].0 == name;
        assert(prompt_table().len() == 5);
        if i == 0 {
        } else if i == 1 {
        } else if i == 2 {
        } else if i == 3 {
        } else {
        }
    }
    if name == "analyze_error"@ {
        assert(prompt_table()[0].0 == name);
    } else if name == "explain_code"@ {
        assert(prompt_table()[1].0 == name);
    } else if name == "find_similar"@ {
        assert(prompt_table()[2].0 == name);
    } else if name == "analyze_code"@ {
        assert(prompt_table()[3].0 == name);
    } else if name == "explain_error"@ {
        assert(prompt_table()[4].0 == name);
    }
}

/// Law: every reply the server sends directly is a JSON-RPC 2.0 reply to the
/// request's id, except the empty object that answers an unknown
/// notification.
pub proof fn law_direct_replies_echo_the_id(msg: Json, version: Seq<char>)
    requires
        direct_reply(msg, version) is Some,
        !(method_kind(method_of(msg)) == McpMethod::Other && msg.field("id"@) is None),
    ensures
        direct_reply(msg, version)->0.field("jsonrpc"@) == Some(Json::Str("2.0"@)),
        direct_reply(msg, version)->0.field("id"@) == Some(or_null(msg.field("id"@))),
{
    reveal_strlit("jsonrpc");
    reveal_strlit("id");
    assert("jsonrpc"@[0] != "id"@[0]);
    reveal_with_fuel(crate::json::lookup, 2);
}

/// The name under which `tools/list` announces the tool `k`; the empty
/// text for an unknown tool.
pub open spec fn tool_name(k: ToolKind) -> Seq<char> {
    match k {
        ToolKind::OpenProject => "open_project"@,
        ToolKind::Status => "status"@,
        ToolKind::GotoDefinition => "goto_definition"@,
        ToolKind::FindReferences => "find_references"@,
        ToolKind::Hover => "hover"@,
        ToolKind::Completions => "completions"@,
        ToolKind::GetDiagnostics => "get_diagnostics"@,
        ToolKind::CodeAction => "code_action"@,
        ToolKind::RenameSymbol => "rename_symbol"@,
        ToolKind::WorkspaceSymbol => "workspace_symbol"@,
        ToolKind::FileStructure => "file_structure"@,
        ToolKind::FormatFile => "format_file"@,
        ToolKind::InlayHints => "inlay_hints"@,
        ToolKind::ExpandMacro => "expand_macro"@,
        ToolKind::Runnables => "runnables"@,
        ToolKind::ViewHir => "view_hir"@,
        ToolKind::CheckUpdate => "check_update"@,
        ToolKind::UpdateRustAnalyzer => "update_rust_analyzer"@,
        ToolKind::HealthCheck => "health_check"@,
        ToolKind::SwitchWorkspace => "switch_workspace"@,
        ToolKind::ListWorkspaces => "list_workspaces"@,
        ToolKind::GotoTypeDefinition => "goto_type_definition"@,
        ToolKind::GotoImplementation => "goto_implementation"@,
        ToolKind::Unknown => Seq::empty(),
    }
}

/// The short name a tool also answers to, where it has one.
pub open spec fn tool_alias(k: ToolKind) -> Option<Seq<char>> {
    match k {
        ToolKind::GetDiagnostics => Some("diagnostics"@),
        ToolKind::FileStructure => Some("document_symbol"@),
        ToolKind::FormatFile => Some("format"@),
        ToolKind::RenameSymbol => Some("rename"@),
        _ => None,
    }
}

/// Law: a `tools/call` that gives a tool's name, or its short name, runs
/// that very tool.
#[verifier::spinoff_prover]
pub proof fn law_each_tool_name_runs_its_tool(k: ToolKind)
    requires
        k != ToolKind::Unknown,
    ensures
        tool_kind(tool_name(k)) == k,
        tool_alias(k) matches Some(a) ==> tool_kind(a) == k,
{
    lemma_tool_names_differ();
}

/// Law: a `tools/call` runs a tool only when it gives that tool's name or
/// short name.
pub proof fn law_a_tool_runs_only_under_its_name(name: Seq<char>)
    requires
        tool_kind(name) != ToolKind::Unknown,
    ensures
        name == tool_name(tool_kind(name)) || tool_alias(tool_kind(name)) == Some(name),
{
}

/// The names a `tools/call` can give are distinct texts.
proof fn lemma_tool_names_differ()
    ensures
        "open_project"@.len() == 12,
        "status"@.len() == 6,
        "goto_definition"@.len() == 15,
        "find_references"@.len() == 15,
        "hover"@.len() == 5,
        "completions"@.len() == 11,
        "get_diagnostics"@.len() == 15,
        "code_action"@.len() == 11,
        "rename_symbol"@.len() == 13,
        "workspace_symbol"@.len() == 16,
        "file_structure"@.len() == 14,
        "format_file"@.len() == 11,
        "inlay_hints"@.len() == 11,
        "expand_macro"@.len() == 12,
        "runnables"@.len() == 9,
        "view_hir"@.len() == 8,
        "check_update"@.len() == 12,
        "update_rust_analyzer"@.len() == 20,
        "health_check"@.len() == 12,
        "switch_workspace"@.len() == 16,
        "list_workspaces"@.len() == 15,
        "goto_type_definition"@.len() == 20,
        "goto_implementation"@.len() == 19,
        "diagnostics"@.len() == 11,
        "document_symbol"@.len() == 15,
        "format"@.len() == 6,
        "rename"@.len() == 6,
        "open_project"@ != "expand_macro"@,
        "open_project"@ != "check_update"@,
        "open_project"@ != "health_check"@,
        "status"@ != "format"@,
        "status"@ != "rename"@,
        "goto_definition"@ != "find_references"@,
        "goto_definition"@ != "get_diagnostics"@,
        "goto_definition"@ != "list_workspaces"@,
        "goto_definition"@ != "document_symbol"@,
        "find_references"@ != "get_diagnostics"@,
        "find_references"@ != "list_workspaces"@,
        "find_references"@ != "document_symbol"@,
        "completions"@ != "code_action"@,
        "completions"@ != "format_file"@,
        "completions"@ != "inlay_hints"@,
        "completions"@ != "diagnostics"@,
        "get_diagnostics"@ != "list_workspaces"@,
        "get_diagnostics"@ != "document_symbol"@,
        "code_action"@ != "format_file"@,
        "code_action"@ != "inlay_hints"@,
        "code_action"@ != "diagnostics"@,
        "workspace_symbol"@ != "switch_workspace"@,
        "format_file"@ != "inlay_hints"@,
        "format_file"@ != "diagnostics"@,
        "inlay_hints"@ != "diagnostics"@,
        "expand_macro"@ != "check_update"@,
        "expand_macro"@ != "health_check"@,
        "check_update"@ != "health_check"@,
        "update_rust_analyzer"@ != "goto_type_definition"@,
        "list_workspaces"@ != "document_symbol"@,
        "format"@ != "rename"@,
{
    reveal_strlit("open_project");
    reveal_strlit("status");
    reveal_strlit("goto_definition");
    reveal_strlit("find_references");
    reveal_strlit("hover");
    reveal_strlit("completions");
    reveal_strlit("get_diagnostics");
    reveal_strlit("code_action");
    reveal_strlit("rename_symbol");
    reveal_strlit("workspace_symbol");
    reveal_strlit("file_structure");
    reveal_strlit("format_file");
    reveal_strlit("inlay_hints");
    reveal_strlit("expand_macro");
    reveal_strlit("runnables");
    reveal_strlit("view_hir");
    reveal_strlit("check_update");
    reveal_strlit("update_rust_analyzer");
    reveal_strlit("health_check");
    reveal_strlit("switch_workspace");
    reveal_strlit("list_workspaces");
    reveal_strlit("goto_type_definition");
    reveal_strlit("goto_implementation");
    reveal_strlit("diagnostics");
    reveal_strlit("document_symbol");
    reveal_strlit("format");
    reveal_strlit("rename");
    assert("open_project"@[0] != "expand_macro"@[0]);
    assert("open_project"@[0] != "check_update"@[0]);
    assert("open_project"@[0] != "health_check"@[0]);
    assert("status"@[0] != "format"@[0]);
    assert("status"@[0] != "rename"@[0]);
    assert("goto_definition"@[0] != "find_references"@[0]);
    assert("goto_definition"@[1] != "get_diagnostics"@[1]);
    assert("goto_definition"@[0] != "list_workspaces"@[0]);
    assert("goto_definition"@[0] != "document_symbol"@[0]);
    assert("find_references"@[0] != "get_diagnostics"@[0]);
    assert("find_references"@[0] != "list_workspaces"@[0]);
    assert("find_references"@[0] != "document_symbol"@[0]);
    assert("completions"@[2] != "code_action"@[2]);
    assert("completions"@[0] != "format_file"@[0]);
    assert("completions"@[0] != "inlay_hints"@[0]);
    assert("completions"@[0] != "diagnostics"@[0]);
    assert("get_diagnostics"@[0] != "list_workspaces"@[0]);
    assert("get_diagnostics"@[0] != "document_symbol"@[0]);
    assert("code_action"@[0] != "format_file"@[0]);
    assert("code_action"@[0] != "inlay_hints"@[0]);
    assert("code_action"@[0] != "diagnostics"@[0]);
    assert("workspace_symbol"@[0] != "switch_workspace"@[0]);
    assert("format_file"@[0] != "inlay_hints"@[0]);
    assert("format_file"@[0] != "diagnostics"@[0]);
    assert("inlay_hints"@[0] != "diagnostics"@[0]);
    assert("expand_macro"@[0] != "check_update"@[0]);
    assert("expand_macro"@[0] != "health_check"@[0]);
    assert("check_update"@[0] != "health_check"@[0]);
    assert("update_rust_analyzer"@[0] != "goto_type_definition"@[0]);
    assert("list_workspaces"@[0] != "document_symbol"@[0]);
    assert("format"@[0] != "rename"@[0]);
}

/// The name of the request method `k`; the empty text for any other.
pub open spec fn method_name(k: McpMethod) -> Seq<char> {
    match k {
        McpMethod::Initialize => "initialize"@,
        McpMethod::Initialized => "initialized"@,
        McpMethod::ToolsList => "tools/list"@,
        McpMethod::ToolsCall => "tools/call"@,
        McpMethod::ResourcesList => "resources/list"@,
        McpMethod::ResourcesRead => "resources/read"@,
        McpMethod::PromptsList => "prompts/list"@,
        McpMethod::PromptsGet => "prompts/get"@,
        McpMethod::Shutdown => "shutdown"@,
        McpMethod::Other => Seq::empty(),
    }
}

/// Law: a message whose method is one the server answers is handled as that
/// method, and as no other; every other method is handled as unknown.
pub proof fn law_each_method_is_handled_as_itself(m: Seq<char>, k: McpMethod)
    requires
        k != McpMethod::Other,
    ensures
        method_kind(m) == k <==> m == method_name(k),
{
    lemma_method_names_differ();
}

/// Law: the reply to `tools/list`, `resources/list` and `prompts/list` is a
/// result that lists, under `tools`, `resources` and `prompts` in turn, the
/// entries of the matching table in order.
pub proof fn law_list_requests_list_their_table(msg: Json, version: Seq<char>)
    ensures
        method_of(msg) == "tools/list"@ ==> (direct_reply(msg, version) matches Some(r)
            && r.field("result"@) matches Some(res)
            && res.field("tools"@) matches Some(Json::Array(items))
            && items.len() == tool_table().len()
            && forall|i: int| 0 <= i < items.len() ==> items[i] == tool_entry(tool_table()[i])),
        method_of(msg) == "resources/list"@ ==> (direct_reply(msg, version) matches Some(r)
            && r.field("result"@) matches Some(res)
            && res.field("resources"@) matches Some(Json::Array(items))
            && items.len() == resource_table().len()
            && forall|i: int| 0 <= i < items.len() ==> items[i] == resource_entry(resource_table()[i])),
        method_of(msg) == "prompts/list"@ ==> (direct_reply(msg, version) matches Some(r)
            && r.field("result"@) matches Some(res)
            && res.field("prompts"@) matches Some(Json::Array(items))
            && items.len() == prompt_table().len()
            && forall|i: int| 0 <= i < items.len() ==> items[i] == prompt_entry(prompt_table()[i])),
{
    lemma_method_names_differ();
    reveal_strlit("jsonrpc");
    reveal_strlit("id");
    reveal_strlit("result");
    assert("jsonrpc"@[0] != "result"@[0]);
    assert("id"@.len() != "result"@.len());
    reveal_with_fuel(crate::json::lookup, 3);
}

/// Whether `uri` names the resource `k`: each resource under its URI, and
/// the version and the configuration also under their `rust://` URIs.
pub open spec fn names_resource(uri: Seq<char>, k: ResourceKind) -> bool {
    match k {
        ResourceKind::HealthStatus => uri == "health://status"@,
        ResourceKind::ServerMetrics => uri == "metrics://server"@,
        ResourceKind::CurrentConfig => uri == "config://current"@ || uri == "rust://config"@,
        ResourceKind::RustAnalyzerVersion => uri == "version://rust-analyzer"@ || uri
            == "rust://version"@,
        ResourceKind::NotFound => false,
    }
}

/// Law: a `resources/read` serves the resource its URI names, and a resource
/// is served only under the URIs that name it.
pub proof fn law_each_uri_reads_its_resource(uri: Seq<char>, k: ResourceKind)
    requires
        k != ResourceKind::NotFound,
    ensures
        resource_kind(uri) == k <==> names_resource(uri, k),
{
    lemma_resource_uris_differ();
}

/// The method names the server answers are distinct texts.
proof fn lemma_method_names_differ()
    ensures
        "initialize"@.len() == 10,
        "initialized"@.len() == 11,
        "tools/list"@.len() == 10,
        "tools/call"@.len() == 10,
        "resources/list"@.len() == 14,
        "resources/read"@.len() == 14,
        "prompts/list"@.len() == 12,
        "prompts/get"@.len() == 11,
        "shutdown"@.len() == 8,
        "initialize"@ != "tools/list"@,
        "initialize"@ != "tools/call"@,
        "initialized"@ != "prompts/get"@,
        "tools/list"@ != "tools/call"@,
        "resources/list"@ != "resources/read"@,
{
    reveal_strlit("initialize");
    reveal_strlit("initialized");
    reveal_strlit("tools/list");
    reveal_strlit("tools/call");
    reveal_strlit("resources/list");
    reveal_strlit("resources/read");
    reveal_strlit("prompts/list");
    reveal_strlit("prompts/get");
    reveal_strlit("shutdown");
    assert("initialize"@[0] != "tools/list"@[0]);
    assert("initialize"@[0] != "tools/call"@[0]);
    assert("initialized"@[0] != "prompts/get"@[0]);
    assert("tools/list"@[6] != "tools/call"@[6]);
    assert("resources/list"@[10] != "resources/read"@[10]);
}

/// The resource URIs the server serves are distinct texts.
proof fn lemma_resource_uris_differ()
    ensures
        "health://status"@.len() == 15,
        "metrics://server"@.len() == 16,
        "config://current"@.len() == 16,
        "version://rust-analyzer"@.len() == 23,
        "rust://version"@.len() == 14,
        "rust://config"@.len() == 13,
        "metrics://server"@ != "config://current"@,
{
    reveal_strlit("health://status");
    reveal_strlit("metrics://server");
    reveal_strlit("config://current");
    reveal_strlit("version://rust-analyzer");
    reveal_strlit("rust://version");
    reveal_strlit("rust://config");
    assert("metrics://server"@[0] != "config://current"@[0]);
}

} // verus!
