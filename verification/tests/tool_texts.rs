use rust_analyzer_mcp::json::{member, object, JsonNumber, JsonValue};
use rust_analyzer_mcp::mcp::handlers::{
    arg_flag, arg_limit, arg_opt_text, arg_text, check_update_text, expand_macro_text,
    file_structure_text, format_diagnostics, format_file_result, format_location,
    goto_definition_text, hover_text, implementations_text, inlay_hints_text, lines_text,
    lsp_position, references_text, rename_text, resolve_file, runnables_text, status_text,
    take_limit, type_definition_text, update_needed, updated_text, workspace_symbol_text,
    DefinitionResult, Diagnostic, DocumentSymbol, ExpandedMacro, InlayHint, Location,
    SymbolInformation,
};
use rust_analyzer_mcp::mcp::health::{get_health_status, health_check_text};

fn loc(uri: &str, line: u32, character: u32) -> Location {
    Location { uri: uri.to_string(), line, character }
}

fn args(members: Vec<(String, JsonValue)>) -> JsonValue {
    object(members)
}

fn num(n: u64) -> JsonValue {
    JsonValue::Number(JsonNumber::PosInt(n))
}

#[test]
fn positions_are_one_based_in_arguments() {
    let a = args(vec![member("line", num(10)), member("column", num(1))]);
    assert_eq!(lsp_position(&a, "line"), Some(9));
    assert_eq!(lsp_position(&a, "column"), Some(0));
    assert_eq!(lsp_position(&a, "missing"), Some(0));
    let zero = args(vec![member("line", num(0))]);
    assert_eq!(lsp_position(&zero, "line"), None);
    let wide = args(vec![member("line", num(u64::MAX))]);
    assert_eq!(lsp_position(&wide, "line"), Some(u32::MAX - 1));
}

#[test]
fn argument_readers() {
    let a = args(vec![
        member("file_path", JsonValue::string("src/lib.rs")),
        member("include_declaration", JsonValue::Bool(false)),
        member("limit", num(5)),
    ]);
    assert_eq!(arg_text(&a, "file_path", ""), "src/lib.rs");
    assert_eq!(arg_text(&a, "query", "none"), "none");
    assert_eq!(arg_opt_text(&a, "kind"), None);
    assert!(!arg_flag(&a, "include_declaration", true));
    assert!(arg_flag(&a, "force", true));
    assert_eq!(arg_limit(&a), 5);
    assert_eq!(arg_limit(&args(vec![])), 50);
}

#[test]
fn locations_are_written_one_based() {
    assert_eq!(format_location(&loc("file:///a.rs", 0, 4)), "file:///a.rs:1:5");
    let locs = vec![loc("file:///a.rs", 1, 2), loc("file:///b.rs", 9, 0)];
    assert_eq!(references_text(&locs), "file:///a.rs:2:3\nfile:///b.rs:10:1");
    assert_eq!(implementations_text(&locs), "file:///a.rs:2:3\n\nfile:///b.rs:10:1");
    assert_eq!(references_text(&[]), "");
}

#[test]
fn definition_texts() {
    assert_eq!(goto_definition_text(&None), "No definition found");
    assert_eq!(goto_definition_text(&Some(DefinitionResult::Link)), "Definition found (link)");
    assert_eq!(
        goto_definition_text(&Some(DefinitionResult::Scalar(loc("file:///x.rs", 3, 3)))),
        "file:///x.rs:4:4"
    );
    let many = vec![loc("u", 0, 0), loc("v", 1, 1)];
    assert_eq!(goto_definition_text(&Some(DefinitionResult::Array(many))), "u:1:1\n\nv:2:2");
    assert_eq!(type_definition_text(&None), "No type definition found");
    assert_eq!(type_definition_text(&Some(loc("t", 0, 1))), "t:1:2");
}

#[test]
fn hover_and_label_texts() {
    assert_eq!(hover_text(None), "No hover information available");
    assert_eq!(hover_text(Some("fn main()".to_string())), "fn main()");
    assert_eq!(lines_text(&["a".to_string(), "b".to_string()]), "a\nb");
    assert_eq!(rename_text("foo"), "Rename to foo completed");
}

#[test]
fn diagnostics_name_their_severity() {
    let d = vec![
        Diagnostic { line: 0, character: 0, severity: Some(1), message: "bad".to_string() },
        Diagnostic { line: 4, character: 2, severity: Some(2), message: "meh".to_string() },
        Diagnostic { line: 1, character: 1, severity: Some(3), message: "fyi".to_string() },
        Diagnostic { line: 1, character: 1, severity: Some(4), message: "tip".to_string() },
        Diagnostic { line: 1, character: 1, severity: None, message: "?".to_string() },
        Diagnostic { line: 1, character: 1, severity: Some(9), message: "!".to_string() },
    ];
    assert_eq!(
        format_diagnostics(&d),
        "1:1: [error] bad\n5:3: [warning] meh\n2:2: [info] fyi\n2:2: [hint] tip\n2:2: [unknown] ?\n2:2: [unknown] !"
    );
}

#[test]
fn symbol_texts() {
    let s = vec![SymbolInformation { name: "Foo".to_string(), uri: "file:///f.rs".to_string(), line: 6 }];
    assert_eq!(workspace_symbol_text(&s), "file:///f.rs:7 - Foo");
    let d = vec![DocumentSymbol {
        name: "main".to_string(),
        kind: "Function".to_string(),
        line: 0,
        character: 3,
    }];
    assert_eq!(file_structure_text(&d), "1:4 - main (Function)");
    assert_eq!(take_limit(vec![1, 2, 3, 4], 2), vec![1, 2]);
    assert_eq!(take_limit(vec![1, 2], 5), vec![1, 2]);
}

#[test]
fn hints_macros_and_runnables() {
    let h = vec![InlayHint {
        line: 2,
        character: 8,
        label: vec![": ".to_string(), "i32".to_string()],
    }];
    assert_eq!(inlay_hints_text(&h), "3:9: : i32");
    assert_eq!(expand_macro_text(&None), "No macro at position");
    let m = ExpandedMacro { name: "vec".to_string(), expansion: "<[_]>::into_vec".to_string() };
    assert_eq!(expand_macro_text(&Some(m)), "vec\n\n<[_]>::into_vec");
    let r = vec![("test it".to_string(), "cargo".to_string()), ("run".to_string(), "shell".to_string())];
    assert_eq!(runnables_text(&r), "test it: cargo\nrun: shell");
}

#[test]
fn format_results() {
    let ok = format_file_result(true, "");
    assert!(ok.get("isError").is_none());
    let bad = format_file_result(false, "oops");
    assert_eq!(bad.get_bool("isError"), Some(true));
    match bad.get("content").unwrap() {
        JsonValue::Array(items) => assert_eq!(items[0].get_str("text"), Some("Format failed: oops")),
        _ => panic!("content is not an array"),
    }
}

#[test]
fn status_and_update_texts() {
    assert_eq!(
        status_text("0.1.0", None, "x"),
        "No project opened. Use 'open_project' first."
    );
    assert_eq!(
        status_text("0.1.0", Some("ok".to_string()), "2024-01-01"),
        "rust-analyzer MCP Server v0.1.0\n\nLSP Status:\nok\nBinary version: 2024-01-01"
    );
    assert_eq!(check_update_text("a", "b"), "Update available! Current: a → Latest: b");
    assert_eq!(check_update_text("a", "a"), "Up to date: a");
    assert!(update_needed(false, "a", "b"));
    assert!(!update_needed(false, "a", "a"));
    assert!(update_needed(true, "a", "a"));
    assert_eq!(updated_text("a", "b"), "Updated rust-analyzer: a → b");
}

#[test]
fn check_update_and_update_agree() {
    for (c, l) in [("a", "a"), ("a", "b"), ("", "x")] {
        let reports = check_update_text(c, l).starts_with("Update available!");
        assert_eq!(reports, update_needed(false, c, l));
    }
}

#[test]
fn files_resolve_against_the_project() {
    assert_eq!(resolve_file("/abs/x.rs", Some("/proj")), Some("/abs/x.rs".to_string()));
    assert_eq!(resolve_file("src/x.rs", Some("/proj")), Some("/proj/src/x.rs".to_string()));
    assert_eq!(resolve_file("src/x.rs", None), None);
}

#[test]
fn health_report_and_summary() {
    let h = get_health_status(
        "0.1.0".to_string(),
        42,
        "/usr/bin/rust-analyzer".to_string(),
        Some("2024-01-01".to_string()),
        Some("2024-01-01".to_string()),
        true,
        Some(false),
        Some("/proj".to_string()),
        true,
    );
    assert!(h.rust_analyzer.up_to_date);
    assert!(h.lsp_connection.connected);
    assert!(!h.lsp_connection.workspace_loaded);
    assert_eq!(h.cache_stats.memory_entries, 0);
    assert_eq!(
        health_check_text(&h),
        "Server: v0.1.0\nUptime: 42s\nLSP Connected: true\nrust-analyzer: 2024-01-01"
    );
    let h = get_health_status(
        "0.1.0".to_string(),
        0,
        "ra".to_string(),
        None,
        Some("2024-01-01".to_string()),
        false,
        None,
        None,
        false,
    );
    assert!(!h.rust_analyzer.up_to_date);
    assert!(!h.lsp_connection.connected);
    assert_eq!(health_check_text(&h), "Server: v0.1.0\nUptime: 0s\nLSP Connected: false\nrust-analyzer: ");
}
