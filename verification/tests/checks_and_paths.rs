use rust_analyzer_mcp::platform::{
    base_dir_var, get_default_install_dir, next_ra_action, ra_binary_name_for, version_file,
    where_output_path, which_output_path, RaAction, RaError, RaSearch,
};
use rust_analyzer_mcp::security::{
    check_resolved_path, exceeds_size_limit, has_dangerous_pattern, is_blocked_path,
    is_dangerous_char, sanitize_command_args, SecurityError,
};
use rust_analyzer_mcp::updater::{
    archive_file_name, get_download_url, installed_version, is_ra_tar_entry, is_ra_zip_entry,
    is_zip_archive, release_tag, UpdateError,
};
use rust_analyzer_mcp::json::{member, object, JsonNumber, JsonValue};

fn strings(v: &[&str]) -> Vec<String> {
    v.iter().map(|s| s.to_string()).collect()
}

#[test]
fn safe_arguments_pass_unchanged() {
    let args = strings(&["--release", "-p", "my-crate", "a=b"]);
    let out = sanitize_command_args(&args).ok().unwrap();
    assert_eq!(out, args);
    assert_eq!(sanitize_command_args(&[]).ok().unwrap(), Vec::<String>::new());
}

#[test]
fn the_first_dangerous_argument_is_refused() {
    let args = strings(&["ok", "a;b", "c|d"]);
    match sanitize_command_args(&args) {
        Err(SecurityError::DangerousCharacter(a)) => assert_eq!(a, "a;b"),
        _ => panic!("expected a refusal"),
    }
    for c in [';', '|', '&', '$', '`', '(', ')', '{', '}', '[', ']', '<', '>', '\'', '"', '\\'] {
        assert!(is_dangerous_char(c));
        let arg = format!("x{}y", c);
        assert!(sanitize_command_args(&[arg]).is_err());
    }
    assert!(!is_dangerous_char('-'));
    let e = SecurityError::DangerousCharacter("a;b".to_string());
    assert_eq!(e.message(), "Dangerous character in argument: a;b");
}

#[test]
fn blocked_paths() {
    let blocked = strings(&["/etc", ".ssh"]);
    assert!(is_blocked_path("/etc/passwd", &blocked));
    assert!(is_blocked_path("/home/u/.ssh/id_rsa", &blocked));
    assert!(!is_blocked_path("/home/u/src/main.rs", &blocked));
    assert!(!is_blocked_path("/etc/passwd", &[]));
}

#[test]
fn dangerous_patterns() {
    assert!(has_dangerous_pattern("/a/../b"));
    assert!(has_dangerous_pattern("~/x/.ssh/key"));
    assert!(!has_dangerous_pattern("/home/u/.ssh/key"));
    assert!(!has_dangerous_pattern("~/notes.txt"));
    assert!(!has_dangerous_pattern("/a/b.c"));
}

#[test]
fn resolved_paths_are_checked_in_order() {
    assert!(check_resolved_path("/work/proj/src/a.rs", "/work/proj", "src/a.rs").is_ok());
    match check_resolved_path("/other/a.rs", "/work/proj", "../../other/a.rs") {
        Err(e) => {
            assert!(matches!(e, SecurityError::EscapesAllowedDirectory(_)));
            assert_eq!(e.message(), "Path escapes allowed directory: ../../other/a.rs");
        },
        Ok(()) => panic!("expected a refusal"),
    }
    match check_resolved_path("/work/proj/x..y", "/work/proj", "x..y") {
        Err(e) => assert_eq!(e.message(), "Dangerous path pattern detected"),
        Ok(()) => panic!("expected a refusal"),
    }
    assert!(check_resolved_path("/work/projects/a.rs", "/work/proj", "a.rs").is_err());
}

#[test]
fn size_limit_in_mebibytes() {
    assert!(!exceeds_size_limit(10 * 1024 * 1024, 10));
    assert!(exceeds_size_limit(10 * 1024 * 1024 + 1, 10));
    assert!(exceeds_size_limit(1, 0));
    assert!(!exceeds_size_limit(u64::MAX, u64::MAX));
}

#[test]
fn binary_names_and_directories() {
    assert_eq!(ra_binary_name_for(true), "rust-analyzer.exe");
    assert_eq!(ra_binary_name_for(false), "rust-analyzer");
    assert_eq!(base_dir_var(false), "HOME");
    assert_eq!(base_dir_var(true), "LOCALAPPDATA");
    assert_eq!(get_default_install_dir(Some("/home/u"), false), "/home/u/.rust-analyzer-mcp/bin");
    assert_eq!(get_default_install_dir(None, false), "/usr/local/.rust-analyzer-mcp/bin");
    assert_eq!(
        version_file(Some("/home/u"), false),
        "/home/u/.rust-analyzer-mcp/rust-analyzer-version"
    );
}

#[test]
fn located_paths_are_trimmed() {
    assert_eq!(which_output_path("/usr/bin/rust-analyzer\n"), "/usr/bin/rust-analyzer");
    assert_eq!(where_output_path(" C:\\ra.exe\r\nC:\\other.exe\r\n"), "C:\\ra.exe");
    assert_eq!(where_output_path("only"), "only");
    assert_eq!(where_output_path(""), "");
}

#[test]
fn search_for_the_binary() {
    assert!(matches!(next_ra_action(RaSearch::Start(Some("/x".to_string())), true), RaAction::CheckCustom(p) if p == "/x"));
    assert!(matches!(next_ra_action(RaSearch::Start(None), true), RaAction::SearchPath));
    assert!(matches!(next_ra_action(RaSearch::CustomChecked("/x".to_string(), true), true), RaAction::Use(p) if p == "/x"));
    match next_ra_action(RaSearch::CustomChecked("/x".to_string(), false), true) {
        RaAction::Fail(e) => assert_eq!(e.message(), "Custom rust-analyzer path does not exist: /x"),
        _ => panic!("expected a failure"),
    }
    assert!(matches!(next_ra_action(RaSearch::PathSearched(Some("/p".to_string())), true), RaAction::Use(p) if p == "/p"));
    assert!(matches!(next_ra_action(RaSearch::PathSearched(None), true), RaAction::CheckInstalled));
    assert!(matches!(next_ra_action(RaSearch::InstalledChecked("/i".to_string(), false), true), RaAction::DownloadLatest));
    assert!(matches!(next_ra_action(RaSearch::InstalledChecked("/i".to_string(), false), false), RaAction::Fail(RaError::NotFound)));
    assert!(matches!(next_ra_action(RaSearch::DownloadChecked("/i".to_string(), false), true), RaAction::Fail(RaError::NotFound)));
    assert!(matches!(next_ra_action(RaSearch::DownloadChecked("/i".to_string(), true), true), RaAction::Use(p) if p == "/i"));
    assert!(RaError::NotFound.message().starts_with("rust-analyzer not found. Please either:\n1. "));
}

#[test]
fn release_tags() {
    let resp = object(vec![member("tag_name", JsonValue::string("2024-06-03"))]);
    assert_eq!(release_tag(&resp).ok().unwrap(), "2024-06-03");
    let missing = object(vec![member("name", JsonValue::string("x"))]);
    assert!(matches!(release_tag(&missing), Err(UpdateError::NoTagName)));
    let not_text = object(vec![member("tag_name", JsonValue::Number(JsonNumber::PosInt(3)))]);
    match release_tag(&not_text) {
        Err(e) => assert_eq!(e.message(), "No tag_name in response"),
        Ok(_) => panic!("expected an error"),
    }
    assert_eq!(UpdateError::BinaryNotInArchive.message(), "rust-analyzer binary not found in archive");
}

#[test]
fn download_addresses() {
    assert_eq!(
        get_download_url("2024-06-03", "linux", "x86_64"),
        "https://github.com/rust-lang/rust-analyzer/releases/download/2024-06-03/rust-analyzer-linux-x86_64-linux.gz"
    );
    assert_eq!(
        get_download_url("t", "windows", "x86_64"),
        "https://github.com/rust-lang/rust-analyzer/releases/download/t/rust-analyzer-windows-x86_64-windows.zip"
    );
    assert_eq!(
        get_download_url("t", "macos", "aarch64"),
        "https://github.com/rust-lang/rust-analyzer/releases/download/t/rust-analyzer-macos-aarch64-macos.gz"
    );
    assert_eq!(get_download_url("t", "freebsd", "riscv64"), get_download_url("t", "linux", "x86_64"));
    assert_eq!(get_download_url("t", "windows", "aarch64"), get_download_url("t", "linux", "x86_64"));
    assert_eq!(archive_file_name("2024-06-03"), "rust-analyzer-2024-06-03");
}

#[test]
fn installed_versions() {
    assert_eq!(installed_version(Some("  2024-06-03\n".to_string())), "2024-06-03");
    assert_eq!(installed_version(None), "unknown");
}

#[test]
fn archive_entries() {
    assert!(is_zip_archive("/tmp/x/rust-analyzer.zip"));
    assert!(!is_zip_archive("/tmp/x/rust-analyzer-2024-06-03"));
    assert!(is_ra_tar_entry("rust-analyzer"));
    assert!(is_ra_tar_entry("dir/rust-analyzer"));
    assert!(!is_ra_tar_entry("rust-analyzer.1"));
    assert!(is_ra_zip_entry("bin/rust-analyzer.exe"));
    assert!(is_ra_zip_entry("rust-analyzer"));
    assert!(!is_ra_zip_entry("rust-analyzer.pdb"));
}
