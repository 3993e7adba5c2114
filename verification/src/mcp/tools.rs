//! The MCP tools this server offers, each with the JSON schema of its arguments.
use vstd::prelude::*;
use crate::json::{
    insert_member, json_seq, lemma_array_view, lemma_object_view, member_insert, member_seq, Json,
    JsonValue,
};

verus! {

/// A tool as `tools/list` announces it.
pub struct ToolDefinition {
    pub name: &'static str,
    pub description: &'static str,
    pub input_schema: JsonValue,
}

pub open spec fn tool_view(t: ToolDefinition) -> (Seq<char>, Seq<char>, Json) {
    (t.name@, t.description@, t.input_schema.view())
}

pub open spec fn tool_views(ts: Seq<ToolDefinition>) -> Seq<(Seq<char>, Seq<char>, Json)> {
    ts.map_values(|t: ToolDefinition| tool_view(t))
}

/// The views of (name, type, description) triples.
pub open spec fn triple_views(p: Seq<(&str, &str, &str)>) -> Seq<(Seq<char>, Seq<char>, Seq<char>)> {
    p.map_values(|t: (&str, &str, &str)| (t.0@, t.1@, t.2@))
}

pub open spec fn str_views(p: Seq<&str>) -> Seq<Seq<char>> {
    p.map_values(|s: &str| s@)
}

/// The schema of one property: `{"type": typ, "description": description}`.
pub open spec fn property_schema(typ: Seq<char>, description: Seq<char>) -> Json {
    Json::Object(seq![("type"@, Json::Str(typ)), ("description"@, Json::Str(description))])
}

/// The `properties` object, each property inserted in turn.
pub open spec fn property_members(props: Seq<(Seq<char>, Seq<char>, Seq<char>)>) -> Seq<
    (Seq<char>, Json),
>
    decreases props.len(),
{
    if props.len() == 0 {
        Seq::empty()
    } else {
        member_insert(
            property_members(props.drop_last()),
            props.last().0,
            property_schema(props.last().1, props.last().2),
        )
    }
}

pub open spec fn string_array(items: Seq<Seq<char>>) -> Json {
    Json::Array(items.map_values(|s: Seq<char>| Json::Str(s)))
}

/// `{"type": "object", "properties": {..}, "required": [..]}`.
#[verifier::opaque]
pub open spec fn schema_with_required(
    props: Seq<(Seq<char>, Seq<char>, Seq<char>)>,
    required: Seq<Seq<char>>,
) -> Json {
    Json::Object(
        seq![
            ("type"@, Json::Str("object"@)),
            ("properties"@, Json::Object(property_members(props))),
            ("required"@, string_array(required)),
        ],
    )
}

/// `{"type": "object", "properties": {..}}`.
#[verifier::opaque]
pub open spec fn schema_without_required(props: Seq<(Seq<char>, Seq<char>, Seq<char>)>) -> Json {
    Json::Object(
        seq![("type"@, Json::Str("object"@)), ("properties"@, Json::Object(property_members(props)))],
    )
}

/// `{"type": "object", "properties": {}}`.
#[verifier::opaque]
pub open spec fn schema_no_properties() -> Json {
    Json::Object(
        seq![("type"@, Json::Str("object"@)), ("properties"@, Json::Object(Seq::empty()))],
    )
}

fn property_object(typ: &str, description: &str) -> (r: JsonValue)
    ensures
        r.view() == property_schema(typ@, description@),
{
    let prop = vec![
        (String::from_str("type"), JsonValue::string(typ)),
        (String::from_str("description"), JsonValue::string(description)),
    ];
    proof {
        lemma_object_view(prop);
        assert(member_seq(prop@) =~= seq![
            ("type"@, Json::Str(typ@)),
            ("description"@, Json::Str(description@)),
        ]);
    }
    JsonValue::Object(prop)
}

fn properties_members(properties: &[(&str, &str, &str)]) -> (r: Vec<(String, JsonValue)>)
    ensures
        member_seq(r@) == property_members(triple_views(properties@)),
{
    let mut props: Vec<(String, JsonValue)> = Vec::new();
    let mut i: usize = 0;
    while i < properties.len()
        invariant
            i <= properties@.len(),
            member_seq(props@) == property_members(triple_views(properties@.take(i as int))),
        decreases properties.len() - i,
    {
        let (key, typ, description) = properties[i];
        let prop = property_object(typ, description);
        insert_member(&mut props, String::from_str(key), prop);
        i = i + 1;
        proof {
            let t = triple_views(properties@.take(i as int));
            assert(t.drop_last() =~= triple_views(properties@.take(i - 1)));
            assert(t.last() == (key@, typ@, description@));
        }
    }
    proof {
        assert(properties@.take(properties@.len() as int) =~= properties@);
    }
    props
}

fn required_array(required: &[&str]) -> (r: JsonValue)
    ensures
        r.view() == string_array(str_views(required@)),
{
    let mut items: Vec<JsonValue> = Vec::new();
    let mut i: usize = 0;
    while i < required.len()
        invariant
            i <= required@.len(),
            items@.len() == i,
            forall|k: int| 0 <= k < i ==> #[trigger] items@[k].view() == Json::Str(required@[k]@),
        decreases required.len() - i,
    {
        items.push(JsonValue::string(required[i]));
        i = i + 1;
    }
    proof {
        lemma_array_view(items);
        assert(json_seq(items@) =~= str_views(required@).map_values(|s: Seq<char>| Json::Str(s)));
    }
    JsonValue::Array(items)
}

/// An object schema whose listed properties are the required ones given.
fn schema_object(properties: &[(&str, &str, &str)], required: &[&str]) -> (r: JsonValue)
    ensures
        r.view() == schema_with_required(triple_views(properties@), str_views(required@)),
{
    let props = properties_members(properties);
    let req = required_array(required);
    let ghost pv = JsonValue::Object(props).view();
    let ghost rv = req.view();
    proof {
        lemma_object_view(props);
    }
    let obj = vec![
        (String::from_str("type"), JsonValue::string("object")),
        (String::from_str("properties"), JsonValue::Object(props)),
        (String::from_str("required"), req),
    ];
    proof {
        reveal(schema_with_required);
        lemma_object_view(obj);
        assert(member_seq(obj@) =~= seq![
            ("type"@, Json::Str("object"@)),
            ("properties"@, pv),
            ("required"@, rv),
        ]);
    }
    JsonValue::Object(obj)
}

/// An object schema with the given properties, none of them required.
fn schema_object_optional(properties: &[(&str, &str, &str)]) -> (r: JsonValue)
    ensures
        r.view() == schema_without_required(triple_views(properties@)),
{
    let props = properties_members(properties);
    let ghost pv = JsonValue::Object(props).view();
    proof {
        lemma_object_view(props);
    }
    let obj = vec![
        (String::from_str("type"), JsonValue::string("object")),
        (String::from_str("properties"), JsonValue::Object(props)),
    ];
    proof {
        reveal(schema_without_required);
        lemma_object_view(obj);
        assert(member_seq(obj@) =~= seq![("type"@, Json::Str("object"@)), ("properties"@, pv)]);
    }
    JsonValue::Object(obj)
}

/// An object schema with no properties.
fn schema_empty() -> (r: JsonValue)
    ensures
        r.view() == schema_no_properties(),
{
    let e: Vec<(String, JsonValue)> = Vec::new();
    proof {
        lemma_object_view(e);
        assert(member_seq(e@) =~= Seq::<(Seq<char>, Json)>::empty());
    }
    let obj = vec![
        (String::from_str("type"), JsonValue::string("object")),
        (String::from_str("properties"), JsonValue::Object(e)),
    ];
    proof {
        reveal(schema_no_properties);
        lemma_object_view(obj);
        assert(member_seq(obj@) =~= seq![
            ("type"@, Json::Str("object"@)),
            ("properties"@, Json::Object(Seq::empty())),
        ]);
    }
    JsonValue::Object(obj)
}

/// What `get_tools` lists, in order: each tool's name, description and
/// argument schema.
pub open spec fn tool_table() -> Seq<(Seq<char>, Seq<char>, Json)> {
    seq![
        ("open_project"@, "Open a Rust project workspace for analysis"@, schema_with_required(triple_views(seq![("workspace_root", "string", "Absolute path to the Cargo project root")]), str_views(seq!["workspace_root"]))),
        ("status"@, "Get rust-analyzer status, version, and workspace info"@, schema_no_properties()),
        ("goto_definition"@, "Jump to the definition of a symbol at a given position"@, schema_with_required(triple_views(seq![("file_path", "string", "Absolute path to the file"), ("line", "integer", "1-based line number"), ("column", "integer", "1-based column number")]), str_views(seq!["file_path", "line", "column"]))),
        ("find_references"@, "Find all references to a symbol at a given position"@, schema_with_required(triple_views(seq![("file_path", "string", "Path to the file"), ("line", "integer", "Line number"), ("column", "integer", "Column number"), ("include_declaration", "boolean", "Include declaration in results")]), str_views(seq!["file_path", "line", "column"]))),
        ("hover"@, "Get type info and documentation for a symbol at position"@, schema_with_required(triple_views(seq![("file_path", "string", "Path to the file"), ("line", "integer", "Line number"), ("column", "integer", "Column number")]), str_views(seq!["file_path", "line", "column"]))),
        ("completions"@, "Get code completions at a position"@, schema_with_required(triple_views(seq![("file_path", "string", "Path to the file"), ("line", "integer", "Line number"), ("column", "integer", "Column number"), ("trigger_character", "string", "Completion trigger")]), str_views(seq!["file_path", "line", "column"]))),
        ("get_diagnostics"@, "Get all compiler errors/warnings for a file or entire workspace"@, schema_without_required(triple_views(seq![("file_path", "string", "Specific file, or omit for entire workspace")]))),
        ("code_action"@, "Get available code actions (fixes, refactors) at a position"@, schema_with_required(triple_views(seq![("file_path", "string", "Path to the file"), ("line", "integer", "Line number"), ("column", "integer", "Column number"), ("kind", "string", "Filter by action kind")]), str_views(seq!["file_path", "line", "column"]))),
        ("rename_symbol"@, "Rename a symbol across the entire workspace"@, schema_with_required(triple_views(seq![("file_path", "string", "Path to the file"), ("line", "integer", "Line number"), ("column", "integer", "Column number"), ("new_name", "string", "New name for the symbol")]), str_views(seq!["file_path", "line", "column", "new_name"]))),
        ("workspace_symbol"@, "Search for symbols across the entire workspace by name"@, schema_with_required(triple_views(seq![("query", "string", "Fuzzy search query"), ("limit", "integer", "Maximum results (default: 50)")]), str_views(seq!["query"]))),
        ("file_structure"@, "Get the symbol outline/structure of a file"@, schema_with_required(triple_views(seq![("file_path", "string", "Path to the file")]), str_views(seq!["file_path"]))),
        ("format_file"@, "Format a file using rustfmt via rust-analyzer"@, schema_with_required(triple_views(seq![("file_path", "string", "Path to the file")]), str_views(seq!["file_path"]))),
        ("inlay_hints"@, "Get inlay hints (type annotations, parameter names) for a file"@, schema_with_required(triple_views(seq![("file_path", "string", "Path to the file")]), str_views(seq!["file_path"]))),
        ("expand_macro"@, "Expand a macro at a given position to see generated code"@, schema_with_required(triple_views(seq![("file_path", "string", "Path to the file"), ("line", "integer", "Line number"), ("column", "integer", "Column number")]), str_views(seq!["file_path", "line", "column"]))),
        ("runnables"@, "List all runnable items (tests, benches, binaries) in project"@, schema_without_required(triple_views(seq![("file_path", "string", "Optional: limit to a specific file")]))),
        ("view_hir"@, "View the HIR (High-level IR) of a function or item"@, schema_with_required(triple_views(seq![("file_path", "string", "Path to the file"), ("line", "integer", "Line number"), ("column", "integer", "Column number")]), str_views(seq!["file_path", "line", "column"]))),
        ("check_update"@, "Check if a newer version of rust-analyzer is available"@, schema_no_properties()),
        ("update_rust_analyzer"@, "Update rust-analyzer to the latest nightly release"@, schema_without_required(triple_views(seq![("force", "boolean", "Force update even if same version")]))),
        ("health_check"@, "Get comprehensive health status of the MCP server"@, schema_without_required(triple_views(seq![("include_details", "boolean", "Include detailed error logs and metrics")]))),
        ("switch_workspace"@, "Switch to a different Rust project workspace"@, schema_with_required(triple_views(seq![("workspace_root", "string", "Path to the workspace")]), str_views(seq!["workspace_root"]))),
        ("list_workspaces"@, "List all open workspaces and their crates"@, schema_no_properties()),
        ("goto_type_definition"@, "Jump to the type definition of a symbol"@, schema_with_required(triple_views(seq![("file_path", "string", "Path to the file"), ("line", "integer", "Line number"), ("column", "integer", "Column number")]), str_views(seq!["file_path", "line", "column"]))),
        ("goto_implementation"@, "Find all implementations of a trait or struct"@, schema_with_required(triple_views(seq![("file_path", "string", "Path to the file"), ("line", "integer", "Line number"), ("column", "integer", "Column number")]), str_views(seq!["file_path", "line", "column"]))),
        ("diagnostics"@, "Get compile errors/warnings"@, schema_without_required(triple_views(seq![("file_path", "string", "Specific file, or omit for entire workspace")]))),
        ("document_symbol"@, "List symbols in a file"@, schema_with_required(triple_views(seq![("file_path", "string", "Path to the file")]), str_views(seq!["file_path"]))),
        ("format"@, "Format file with rustfmt"@, schema_with_required(triple_views(seq![("file_path", "string", "Path to the file")]), str_views(seq!["file_path"]))),
        ("rename"@, "Rename a symbol"@, schema_with_required(triple_views(seq![("file_path", "string", "Path to the file"), ("line", "integer", "Line number"), ("column", "integer", "Column number"), ("new_name", "string", "New name for the symbol")]), str_views(seq!["file_path", "line", "column", "new_name"]))),
    ]
}

/// The tools this server offers, with the schema of each one's arguments.
pub fn get_tools() -> (r: Vec<ToolDefinition>)
    ensures
        tool_views(r@) == tool_table(),
{
    let mut r: Vec<ToolDefinition> = Vec::new();
    let props0 = &[("workspace_root", "string", "Absolute path to the Cargo project root")];
    proof {
        assert(props0@ =~= seq![("workspace_root", "string", "Absolute path to the Cargo project root")]);
    }
    let required0 = &["workspace_root"];
    proof {
        assert(required0@ =~= seq!["workspace_root"]);
    }
    r.push(
        ToolDefinition {
            name: "open_project",
            description: "Open a Rust project workspace for analysis",
            input_schema: schema_object(props0, required0),
        },
    );
    r.push(
        ToolDefinition {
            name: "status",
            description: "Get rust-analyzer status, version, and workspace info",
            input_schema: schema_empty(),
        },
    );
    let props2 = &[("file_path", "string", "Absolute path to the file"), ("line", "integer", "1-based line number"), ("column", "integer", "1-based column number")];
    proof {
        assert(props2@ =~= seq![("file_path", "string", "Absolute path to the file"), ("line", "integer", "1-based line number"), ("column", "integer", "1-based column number")]);
    }
    let required2 = &["file_path", "line", "column"];
    proof {
        assert(required2@ =~= seq!["file_path", "line", "column"]);
    }
    r.push(
        ToolDefinition {
            name: "goto_definition",
            description: "Jump to the definition of a symbol at a given position",
            input_schema: schema_object(props2, required2),
        },
    );
    let props3 = &[("file_path", "string", "Path to the file"), ("line", "integer", "Line number"), ("column", "integer", "Column number"), ("include_declaration", "boolean", "Include declaration in results")];
    proof {
        assert(props3@ =~= seq![("file_path", "string", "Path to the file"), ("line", "integer", "Line number"), ("column", "integer", "Column number"), ("include_declaration", "boolean", "Include declaration in results")]);
    }
    let required3 = &["file_path", "line", "column"];
    proof {
        assert(required3@ =~= seq!["file_path", "line", "column"]);
    }
    r.push(
        ToolDefinition {
            name: "find_references",
            description: "Find all references to a symbol at a given position",
            input_schema: schema_object(props3, required3),
        },
    );
    let props4 = &[("file_path", "string", "Path to the file"), ("line", "integer", "Line number"), ("column", "integer", "Column number")];
    proof {
        assert(props4@ =~= seq![("file_path", "string", "Path to the file"), ("line", "integer", "Line number"), ("column", "integer", "Column number")]);
    }
    let required4 = &["file_path", "line", "column"];
    proof {
        assert(required4@ =~= seq!["file_path", "line", "column"]);
    }
    r.push(
        ToolDefinition {
            name: "hover",
            description: "Get type info and documentation for a symbol at position",
            input_schema: schema_object(props4, required4),
        },
    );
    let props5 = &[("file_path", "string", "Path to the file"), ("line", "integer", "Line number"), ("column", "integer", "Column number"), ("trigger_character", "string", "Completion trigger")];
    proof {
        assert(props5@ =~= seq![("file_path", "string", "Path to the file"), ("line", "integer", "Line number"), ("column", "integer", "Column number"), ("trigger_character", "string", "Completion trigger")]);
    }
    let required5 = &["file_path", "line", "column"];
    proof {
        assert(required5@ =~= seq!["file_path", "line", "column"]);
    }
    r.push(
        ToolDefinition {
            name: "completions",
            description: "Get code completions at a position",
            input_schema: schema_object(props5, required5),
        },
    );
    let props6 = &[("file_path", "string", "Specific file, or omit for entire workspace")];
    proof {
        assert(props6@ =~= seq![("file_path", "string", "Specific file, or omit for entire workspace")]);
    }
    r.push(
        ToolDefinition {
            name: "get_diagnostics",
            description: "Get all compiler errors/warnings for a file or entire workspace",
            input_schema: schema_object_optional(props6),
        },
    );
    let props7 = &[("file_path", "string", "Path to the file"), ("line", "integer", "Line number"), ("column", "integer", "Column number"), ("kind", "string", "Filter by action kind")];
    proof {
        assert(props7@ =~= seq![("file_path", "string", "Path to the file"), ("line", "integer", "Line number"), ("column", "integer", "Column number"), ("kind", "string", "Filter by action kind")]);
    }
    let required7 = &["file_path", "line", "column"];
    proof {
        assert(required7@ =~= seq!["file_path", "line", "column"]);
    }
    r.push(
        ToolDefinition {
            name: "code_action",
            description: "Get available code actions (fixes, refactors) at a position",
            input_schema: schema_object(props7, required7),
        },
    );
    let props8 = &[("file_path", "string", "Path to the file"), ("line", "integer", "Line number"), ("column", "integer", "Column number"), ("new_name", "string", "New name for the symbol")];
    proof {
        assert(props8@ =~= seq![("file_path", "string", "Path to the file"), ("line", "integer", "Line number"), ("column", "integer", "Column number"), ("new_name", "string", "New name for the symbol")]);
    }
    let required8 = &["file_path", "line", "column", "new_name"];
    proof {
        assert(required8@ =~= seq!["file_path", "line", "column", "new_name"]);
    }
    r.push(
        ToolDefinition {
            name: "rename_symbol",
            description: "Rename a symbol across the entire workspace",
            input_schema: schema_object(props8, required8),
        },
    );
    let props9 = &[("query", "string", "Fuzzy search query"), ("limit", "integer", "Maximum results (default: 50)")];
    proof {
        assert(props9@ =~= seq![("query", "string", "Fuzzy search query"), ("limit", "integer", "Maximum results (default: 50)")]);
    }
    let required9 = &["query"];
    proof {
        assert(required9@ =~= seq!["query"]);
    }
    r.push(
        ToolDefinition {
            name: "workspace_symbol",
            description: "Search for symbols across the entire workspace by name",
            input_schema: schema_object(props9, required9),
        },
    );
    let props10 = &[("file_path", "string", "Path to the file")];
    proof {
        assert(props10@ =~= seq![("file_path", "string", "Path to the file")]);
    }
    let required10 = &["file_path"];
    proof {
        assert(required10@ =~= seq!["file_path"]);
    }
    r.push(
        ToolDefinition {
            name: "file_structure",
            description: "Get the symbol outline/structure of a file",
            input_schema: schema_object(props10, required10),
        },
    );
    let props11 = &[("file_path", "string", "Path to the file")];
    proof {
        assert(props11@ =~= seq![("file_path", "string", "Path to the file")]);
    }
    let required11 = &["file_path"];
    proof {
        assert(required11@ =~= seq!["file_path"]);
    }
    r.push(
        ToolDefinition {
            name: "format_file",
            description: "Format a file using rustfmt via rust-analyzer",
            input_schema: schema_object(props11, required11),
        },
    );
    let props12 = &[("file_path", "string", "Path to the file")];
    proof {
        assert(props12@ =~= seq![("file_path", "string", "Path to the file")]);
    }
    let required12 = &["file_path"];
    proof {
        assert(required12@ =~= seq!["file_path"]);
    }
    r.push(
        ToolDefinition {
            name: "inlay_hints",
            description: "Get inlay hints (type annotations, parameter names) for a file",
            input_schema: schema_object(props12, required12),
        },
    );
    let props13 = &[("file_path", "string", "Path to the file"), ("line", "integer", "Line number"), ("column", "integer", "Column number")];
    proof {
        assert(props13@ =~= seq![("file_path", "string", "Path to the file"), ("line", "integer", "Line number"), ("column", "integer", "Column number")]);
    }
    let required13 = &["file_path", "line", "column"];
    proof {
        assert(required13@ =~= seq!["file_path", "line", "column"]);
    }
    r.push(
        ToolDefinition {
            name: "expand_macro",
            description: "Expand a macro at a given position to see generated code",
            input_schema: schema_object(props13, required13),
        },
    );
    let props14 = &[("file_path", "string", "Optional: limit to a specific file")];
    proof {
        assert(props14@ =~= seq![("file_path", "string", "Optional: limit to a specific file")]);
    }
    r.push(
        ToolDefinition {
            name: "runnables",
            description: "List all runnable items (tests, benches, binaries) in project",
            input_schema: schema_object_optional(props14),
        },
    );
    let props15 = &[("file_path", "string", "Path to the file"), ("line", "integer", "Line number"), ("column", "integer", "Column number")];
    proof {
        assert(props15@ =~= seq![("file_path", "string", "Path to the file"), ("line", "integer", "Line number"), ("column", "integer", "Column number")]);
    }
    let required15 = &["file_path", "line", "column"];
    proof {
        assert(required15@ =~= seq!["file_path", "line", "column"]);
    }
    r.push(
        ToolDefinition {
            name: "view_hir",
            description: "View the HIR (High-level IR) of a function or item",
            input_schema: schema_object(props15, required15),
        },
    );
    r.push(
        ToolDefinition {
            name: "check_update",
            description: "Check if a newer version of rust-analyzer is available",
            input_schema: schema_empty(),
        },
    );
    let props17 = &[("force", "boolean", "Force update even if same version")];
    proof {
        assert(props17@ =~= seq![("force", "boolean", "Force update even if same version")]);
    }
    r.push(
        ToolDefinition {
            name: "update_rust_analyzer",
            description: "Update rust-analyzer to the latest nightly release",
            input_schema: schema_object_optional(props17),
        },
    );
    let props18 = &[("include_details", "boolean", "Include detailed error logs and metrics")];
    proof {
        assert(props18@ =~= seq![("include_details", "boolean", "Include detailed error logs and metrics")]);
    }
    r.push(
        ToolDefinition {
            name: "health_check",
            description: "Get comprehensive health status of the MCP server",
            input_schema: schema_object_optional(props18),
        },
    );
    let props19 = &[("workspace_root", "string", "Path to the workspace")];
    proof {
        assert(props19@ =~= seq![("workspace_root", "string", "Path to the workspace")]);
    }
    let required19 = &["workspace_root"];
    proof {
        assert(required19@ =~= seq!["workspace_root"]);
    }
    r.push(
        ToolDefinition {
            name: "switch_workspace",
            description: "Switch to a different Rust project workspace",
            input_schema: schema_object(props19, required19),
        },
    );
    r.push(
        ToolDefinition {
            name: "list_workspaces",
            description: "List all open workspaces and their crates",
            input_schema: schema_empty(),
        },
    );
    let props21 = &[("file_path", "string", "Path to the file"), ("line", "integer", "Line number"), ("column", "integer", "Column number")];
    proof {
        assert(props21@ =~= seq![("file_path", "string", "Path to the file"), ("line", "integer", "Line number"), ("column", "integer", "Column number")]);
    }
    let required21 = &["file_path", "line", "column"];
    proof {
        assert(required21@ =~= seq!["file_path", "line", "column"]);
    }
    r.push(
        ToolDefinition {
            name: "goto_type_definition",
            description: "Jump to the type definition of a symbol",
            input_schema: schema_object(props21, required21),
        },
    );
    let props22 = &[("file_path", "string", "Path to the file"), ("line", "integer", "Line number"), ("column", "integer", "Column number")];
    proof {
        assert(props22@ =~= seq![("file_path", "string", "Path to the file"), ("line", "integer", "Line number"), ("column", "integer", "Column number")]);
    }
    let required22 = &["file_path", "line", "column"];
    proof {
        assert(required22@ =~= seq!["file_path", "line", "column"]);
    }
    r.push(
        ToolDefinition {
            name: "goto_implementation",
            description: "Find all implementations of a trait or struct",
            input_schema: schema_object(props22, required22),
        },
    );
    let props23 = &[("file_path", "string", "Specific file, or omit for entire workspace")];
    proof {
        assert(props23@ =~= seq![("file_path", "string", "Specific file, or omit for entire workspace")]);
    }
    r.push(
        ToolDefinition {
            name: "diagnostics",
            description: "Get compile errors/warnings",
            input_schema: schema_object_optional(props23),
        },
    );
    let props24 = &[("file_path", "string", "Path to the file")];
    proof {
        assert(props24@ =~= seq![("file_path", "string", "Path to the file")]);
    }
    let required24 = &["file_path"];
    proof {
        assert(required24@ =~= seq!["file_path"]);
    }
    r.push(
        ToolDefinition {
            name: "document_symbol",
            description: "List symbols in a file",
            input_schema: schema_object(props24, required24),
        },
    );
    let props25 = &[("file_path", "string", "Path to the file")];
    proof {
        assert(props25@ =~= seq![("file_path", "string", "Path to the file")]);
    }
    let required25 = &["file_path"];
    proof {
        assert(required25@ =~= seq!["file_path"]);
    }
    r.push(
        ToolDefinition {
            name: "format",
            description: "Format file with rustfmt",
            input_schema: schema_object(props25, required25),
        },
    );
    let props26 = &[("file_path", "string", "Path to the file"), ("line", "integer", "Line number"), ("column", "integer", "Column number"), ("new_name", "string", "New name for the symbol")];
    proof {
        assert(props26@ =~= seq![("file_path", "string", "Path to the file"), ("line", "integer", "Line number"), ("column", "integer", "Column number"), ("new_name", "string", "New name for the symbol")]);
    }
    let required26 = &["file_path", "line", "column", "new_name"];
    proof {
        assert(required26@ =~= seq!["file_path", "line", "column", "new_name"]);
    }
    r.push(
        ToolDefinition {
            name: "rename",
            description: "Rename a symbol",
            input_schema: schema_object(props26, required26),
        },
    );
    proof {
        assert(tool_views(r@) =~= tool_table());
    }
    r
}

} // verus!
