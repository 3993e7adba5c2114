use rust_analyzer_mcp::cache::Cache;
use rust_analyzer_mcp::config::{load_config, Config, ConfigSource, EnvVars};
use rust_analyzer_mcp::json::{member, object, JsonNumber, JsonValue};
use rust_analyzer_mcp::lsp::client::{
    build_notification, build_request, match_response, match_response_bytes, runnables_params, text_document_position,
    text_or_empty, RequestIds, ResponseMatch,
};
use rust_analyzer_mcp::metrics::Metrics;
use rust_analyzer_mcp::workspace::config::{
    crate_names_of, parse_crate_names, ProjectConfig, WorkspaceConfig,
};
use rust_analyzer_mcp::json::array;
use rust_analyzer_mcp::workspace::discovery::{
    find_cargo_project, is_rust_extension, is_rust_file, nearest_with_manifest,
};
use rust_analyzer_mcp::workspace::manager::{WorkspaceError, WorkspaceInfo, WorkspaceManager};

fn num(n: u64) -> JsonValue {
    JsonValue::Number(JsonNumber::PosInt(n))
}

const MANIFEST: &str = r#"
[package]
name = "demo"
edition = "2021"
version = "0.1.0"

[dependencies]
tokio = { version = "1" }
serde = "1"

[workspace]
members = ["crates/a", 3, "crates/b"]
"#;

#[test]
fn project_from_manifest() {
    let p = ProjectConfig::from_cargo_toml("/work/demo/Cargo.toml", MANIFEST).ok().unwrap();
    assert_eq!(p.root, "/work/demo");
    assert_eq!(p.crate_name.as_deref(), Some("demo"));
    assert_eq!(p.edition.as_deref(), Some("2021"));
    assert_eq!(p.rust_version, None);
    assert_eq!(p.dependencies, vec!["serde".to_string(), "tokio".to_string()]);
    let bare = ProjectConfig::from_cargo_toml("Cargo.toml", "").ok().unwrap();
    assert_eq!(bare.root, "");
    assert_eq!(bare.crate_name, None);
    assert!(bare.dependencies.is_empty());
    assert!(ProjectConfig::from_cargo_toml("Cargo.toml", "[package\nname=").is_err());
}

#[test]
fn workspace_from_manifest() {
    let w = WorkspaceConfig::from_cargo_toml("/work/demo/Cargo.toml", MANIFEST).ok().unwrap();
    assert_eq!(w.root, "/work/demo");
    assert_eq!(w.members, vec!["/work/demo/crates/a".to_string(), "/work/demo/crates/b".to_string()]);
    assert!(WorkspaceConfig::from_cargo_toml("/x/Cargo.toml", "").ok().unwrap().members.is_empty());
    assert!(WorkspaceConfig::from_cargo_toml("/x/Cargo.toml", "= =").is_err());
}

#[test]
fn crate_names_of_a_manifest() {
    assert_eq!(
        parse_crate_names(MANIFEST).ok().unwrap(),
        vec!["demo".to_string(), "crates/a".to_string(), "crates/b".to_string()]
    );
    assert!(parse_crate_names("").ok().unwrap().is_empty());
    assert!(parse_crate_names("[[[").is_err());
}

#[test]
fn rust_files() {
    assert!(is_rust_file("/a/b/main.rs"));
    assert!(is_rust_file("lib.rs"));
    assert!(!is_rust_file("/a/b/Cargo.toml"));
    assert!(!is_rust_file("/a/b/rs"));
    assert!(!is_rust_file(".rs"));
    assert!(is_rust_extension(&Some("rs".to_string())));
    assert!(!is_rust_extension(&Some("RS".to_string())));
    assert!(!is_rust_extension(&None));
}

#[test]
fn cargo_project_is_found_upwards() {
    let dir = tempfile::tempdir().unwrap();
    let _manifest = tempfile::Builder::new()
        .prefix("Cargo.toml")
        .rand_bytes(0)
        .tempfile_in(dir.path())
        .unwrap();
    let sub = tempfile::Builder::new().prefix("sub").rand_bytes(0).tempdir_in(dir.path()).unwrap();
    let root = dir.path().to_string_lossy().into_owned();
    let start = sub.path().to_string_lossy().into_owned();
    assert_eq!(find_cargo_project(&start), Some(root.clone()));
    assert_eq!(find_cargo_project(&root), Some(root));
    assert_eq!(find_cargo_project("/no/such/dir/anywhere"), None);
}

#[test]
fn nearest_directory_with_a_manifest() {
    let dirs = vec!["/a/b/c".to_string(), "/a/b".to_string(), "/a".to_string()];
    assert_eq!(nearest_with_manifest(&dirs, &[false, true, true]), Some(1));
    assert_eq!(nearest_with_manifest(&dirs, &[true, false, true]), Some(0));
    assert_eq!(nearest_with_manifest(&dirs, &[false, false, false]), None);
    assert_eq!(nearest_with_manifest(&[], &[]), None);
}

fn info(root: &str, client: u32, names: &[&str]) -> WorkspaceInfo<u32> {
    WorkspaceInfo {
        root: root.to_string(),
        lsp_client: client,
        crate_names: names.iter().map(|s| s.to_string()).collect(),
    }
}

#[test]
fn workspaces_are_added_switched_and_listed() {
    let mut m: WorkspaceManager<u32> = WorkspaceManager::new("/usr/bin/rust-analyzer".to_string());
    assert_eq!(m.ra_path(), "/usr/bin/rust-analyzer");
    assert!(matches!(m.get_active(), Err(WorkspaceError::NoActive)));
    m.add_workspace(info("/w/a", 1, &["a"]));
    assert_eq!(*m.get_active().ok().unwrap(), 1);
    m.add_workspace(info("/w/b", 2, &["b", "b2"]));
    assert_eq!(*m.get_active().ok().unwrap(), 1);
    assert!(m.switch_workspace("/w/b/").is_ok());
    assert_eq!(*m.get_active().ok().unwrap(), 2);
    match m.switch_workspace("/w/c") {
        Err(e) => assert_eq!(e.message(), "Workspace not found: /w/c"),
        Ok(()) => panic!("expected an error"),
    }
    assert_eq!(*m.get_active().ok().unwrap(), 2);
    m.add_workspace(info("/w/a/", 3, &["a3"]));
    let mut listed = m.list_workspaces();
    listed.sort();
    assert_eq!(
        listed,
        vec![
            ("/w/a".to_string(), vec!["a3".to_string()]),
            ("/w/b".to_string(), vec!["b".to_string(), "b2".to_string()]),
        ]
    );
    assert!(m.switch_workspace("/w/a").is_ok());
    assert_eq!(*m.get_active().ok().unwrap(), 3);
    assert_eq!(WorkspaceError::NoActive.message(), "No active workspace");
}

#[test]
fn cache_reads_back_and_expires() {
    let mut c: Cache<String, String> = Cache::new(100, 10);
    c.set_at("k".to_string(), "v".to_string(), 1000);
    assert_eq!(c.get_at(&"k".to_string(), 1050), Some("v".to_string()));
    assert_eq!(c.get_at(&"k".to_string(), 1100), Some("v".to_string()));
    assert_eq!(c.get_at(&"k".to_string(), 1101), None);
    assert_eq!(c.get_at(&"other".to_string(), 1000), None);
    c.invalidate(&"k".to_string());
    assert_eq!(c.get_at(&"k".to_string(), 1000), None);
    assert_eq!(c.len(), 0);
}

#[test]
fn full_cache_drops_the_oldest() {
    let mut c: Cache<u64, u64> = Cache::new(1_000_000, 2);
    c.set_at(1, 10, 5);
    c.set_at(2, 20, 6);
    c.set_at(3, 30, 7);
    assert_eq!(c.len(), 2);
    assert_eq!(c.get_at(&1, 7), None);
    assert_eq!(c.get_at(&2, 7), Some(20));
    assert_eq!(c.get_at(&3, 7), Some(30));
    c.clear();
    assert_eq!(c.len(), 0);
}

#[test]
fn cache_with_real_clock() {
    let mut c: Cache<String, u64> = Cache::new(std::time::Duration::from_secs(60).as_nanos(), 100);
    c.set("a".to_string(), 1);
    assert_eq!(c.get(&"a".to_string()), Some(1));
    let d: Cache<String, u64> = Cache::default();
    assert_eq!(d.len(), 0);
}

#[test]
fn metrics_summary() {
    let mut m = Metrics::new();
    m.record_request("hover", 100);
    m.record_request("hover", 300);
    m.record_request("status", 200);
    m.record_error("timeout");
    m.record_lsp_call("textDocument/hover", 7);
    assert_eq!(m.total_requests(), Some(3));
    let s = m.get_summary();
    assert_eq!(s.total_requests, 3);
    assert_eq!(s.avg_request_latency, 200);
    assert_eq!(s.p99_request_latency, 300);
    let mut by_tool = s.requests_by_tool.clone();
    by_tool.sort();
    assert_eq!(by_tool, vec![("hover".to_string(), 2), ("status".to_string(), 1)]);
    assert_eq!(s.errors_by_type, vec![("timeout".to_string(), 1)]);
    assert_eq!(s.lsp_stats, vec![("textDocument/hover".to_string(), vec![7])]);
}

#[test]
fn latency_window_keeps_the_newest() {
    let mut m = Metrics::new();
    for i in 0..1005u64 {
        m.record_request("t", i);
    }
    let s = m.get_summary();
    assert_eq!(s.total_requests, 1005);
    let expected_mean = (5..1005u64).sum::<u64>() / 1000;
    assert_eq!(s.avg_request_latency, expected_mean);
    assert_eq!(s.p99_request_latency, 5 + 990);
}

#[test]
fn empty_metrics() {
    let s = Metrics::new().get_summary();
    assert_eq!(s.total_requests, 0);
    assert_eq!(s.avg_request_latency, 0);
    assert_eq!(s.p99_request_latency, 0);
}

#[test]
fn environment_configuration() {
    let c = Config::load_from_env(EnvVars::unset());
    let d = Config::default();
    assert_eq!(c.lsp.timeout_seconds, d.lsp.timeout_seconds);
    assert_eq!(c.rust_analyzer.update_channel, "nightly");
    assert!(c.rust_analyzer.auto_update);
    assert_eq!(c.logging.level, "info");
    let mut env = EnvVars::unset();
    env.auto_update = Some("false".to_string());
    env.timeout = Some("+45".to_string());
    env.max_retries = Some("many".to_string());
    env.crash_recovery = Some("TRUE".to_string());
    env.log_level = Some("debug".to_string());
    env.rust_analyzer_path = Some("/opt/ra".to_string());
    let c = Config::load_from_env(env);
    assert!(!c.rust_analyzer.auto_update);
    assert_eq!(c.lsp.timeout_seconds, 45);
    assert_eq!(c.lsp.max_retries, 3);
    assert!(!c.lsp.crash_recovery);
    assert_eq!(c.logging.level, "debug");
    assert_eq!(c.logging.format, "text");
    assert_eq!(c.rust_analyzer.path.as_deref(), Some("/opt/ra"));
}

#[test]
fn configuration_source() {
    assert_eq!(load_config("x.toml", true), ConfigSource::File);
    assert_eq!(load_config("config/default.toml", false), ConfigSource::Environment);
    assert_eq!(load_config("x.toml", false), ConfigSource::Missing);
}

#[test]
fn request_numbers_increase() {
    let mut ids = RequestIds::new();
    assert_eq!(ids.peek(), 1);
    let a = ids.next_id();
    let b = ids.next_id();
    assert_eq!((a, b), (1, 2));
    assert_eq!(ids.peek(), 3);
}

#[test]
fn requests_and_replies() {
    let r = build_request(4, "textDocument/hover", JsonValue::Null);
    assert_eq!(r.get_str("jsonrpc"), Some("2.0"));
    assert_eq!(r.get_u64("id"), Some(4));
    assert_eq!(r.get_str("method"), Some("textDocument/hover"));
    let n = build_notification("initialized", object(vec![]));
    assert!(n.get("id").is_none());
    let ok = object(vec![member("id", num(4)), member("result", JsonValue::string("x"))]);
    assert!(matches!(match_response(&ok, 4), ResponseMatch::Success(JsonValue::Str(s)) if s == "x"));
    assert!(matches!(match_response(&ok, 5), ResponseMatch::Other));
    let bare = object(vec![member("id", num(4))]);
    assert!(matches!(match_response(&bare, 4), ResponseMatch::Success(JsonValue::Null)));
    let err = object(vec![member("id", num(4)), member("error", JsonValue::string("boom"))]);
    assert!(matches!(match_response(&err, 4), ResponseMatch::Failure(_)));
    let note = object(vec![member("method", JsonValue::string("$/progress"))]);
    assert!(matches!(match_response(&note, 4), ResponseMatch::Other));
    assert_eq!(text_or_empty(&JsonValue::string("hir")), "hir");
    assert_eq!(text_or_empty(&JsonValue::Null), "");
}

#[test]
fn request_parameters_carry_the_file_url() {
    let p = text_document_position("/tmp/a b.rs", 3, 4).unwrap();
    let doc = p.get("textDocument").unwrap();
    assert_eq!(doc.get_str("uri"), Some("file:///tmp/a%20b.rs"));
    let pos = p.get("position").unwrap();
    assert_eq!(pos.get_u64("line"), Some(3));
    assert_eq!(pos.get_u64("character"), Some(4));
    assert!(text_document_position("relative.rs", 0, 0).is_none());
    let whole = runnables_params(None).unwrap();
    assert!(matches!(whole.get("textDocument"), Some(JsonValue::Null)));
    let one = runnables_params(Some("/tmp/x.rs")).unwrap();
    assert_eq!(one.get("textDocument").unwrap().get_str("uri"), Some("file:///tmp/x.rs"));
}

#[test]
fn reply_bodies_are_sorted() {
    assert!(matches!(match_response_bytes(br#"{"id":4,"result":"x"}"#, 4), Some(ResponseMatch::Success(JsonValue::Str(s))) if s == "x"));
    assert!(matches!(match_response_bytes(br#"{"id":4,"error":{"code":1}}"#, 4), Some(ResponseMatch::Failure(_))));
    assert!(matches!(match_response_bytes(br#"{"id":5}"#, 4), Some(ResponseMatch::Other)));
    assert!(match_response_bytes(b"garbage", 4).is_none());
}

#[test]
fn cache_lives_for_the_given_duration() {
    let ttl = std::time::Duration::from_millis(1500).as_nanos();
    let mut c: Cache<u64, u64> = Cache::new(ttl, 10);
    c.set_at(7, 70, 0);
    assert_eq!(c.get_at(&7, 1_500_000_000), Some(70));
    assert_eq!(c.get_at(&7, 1_500_000_001), None);
}

#[test]
fn manifests_given_as_trees() {
    let doc = object(vec![
        member("package", object(vec![member("name", JsonValue::string("demo")), member("rust-version", JsonValue::string("1.70"))])),
        member("workspace", object(vec![member("members", array(vec![JsonValue::string("a"), num(1)]))])),
    ]);
    let p = ProjectConfig::from_tree("/w/Cargo.toml", &doc);
    assert_eq!(p.crate_name.as_deref(), Some("demo"));
    assert_eq!(p.rust_version.as_deref(), Some("1.70"));
    assert!(p.dependencies.is_empty());
    let w = WorkspaceConfig::from_tree("/w/Cargo.toml", &doc);
    assert_eq!(w.members, vec!["/w/a".to_string()]);
    assert_eq!(crate_names_of(&doc), vec!["demo".to_string(), "a".to_string()]);
}
