use rust_analyzer_mcp::cache::Cache;
use rust_analyzer_mcp::config::{Config, LspConfig, SecurityConfig};
use rust_analyzer_mcp::mcp::prompts::get_prompts;
use rust_analyzer_mcp::mcp::resources::get_resources;
use rust_analyzer_mcp::mcp::tools::get_tools;
use rust_analyzer_mcp::platform::get_ra_binary_name;

#[test]
fn lib_test_tools_not_empty() {
    let tools = get_tools();
    assert!(!tools.is_empty());
}

#[test]
fn lib_test_tools_have_open_project() {
    let tools = get_tools();
    let has_open_project = tools.iter().any(|t| t.name == "open_project");
    assert!(has_open_project);
}

#[test]
fn lib_test_resources_not_empty() {
    let resources = get_resources();
    assert!(!resources.is_empty());
}

#[test]
fn lib_test_prompts_not_empty() {
    let prompts = get_prompts();
    assert!(!prompts.is_empty());
}

#[test]
fn lib_test_config_default() {
    let config = Config::default();
    assert_eq!(config.cache.ttl_seconds, 300);
    assert_eq!(config.cache.max_entries, 1000);
}

#[test]
fn test_lsp_config_default() {
    let config = LspConfig::default();
    assert_eq!(config.timeout_seconds, 30);
}

#[test]
fn test_security_config_default() {
    let config = SecurityConfig::default();
    assert_eq!(config.max_file_size_mb, 10);
}

#[test]
fn test_ra_binary_name() {
    let name = get_ra_binary_name();
    assert!(!name.is_empty());
}

#[test]
fn test_cache_new() {
    let _cache: Cache<String, String> = Cache::new(std::time::Duration::from_secs(60).as_nanos(), 100);
}

#[test]
fn basic_test_test_tools_not_empty() {
    let tools = get_tools();
    assert!(!tools.is_empty(), "Tools should not be empty");
}

#[test]
fn test_tools_have_required_fields() {
    let tools = get_tools();
    for tool in tools.iter().take(3) {
        assert!(!tool.name.is_empty(), "Tool name should not be empty");
        assert!(!tool.description.is_empty(), "Tool description should not be empty");
    }
}

#[test]
fn basic_test_test_tools_have_open_project() {
    let tools = get_tools();
    let has_open_project = tools.iter().any(|t| t.name == "open_project");
    assert!(has_open_project, "Should have open_project tool");
}

#[test]
fn basic_test_test_resources_not_empty() {
    let resources = get_resources();
    assert!(!resources.is_empty(), "Resources should not be empty");
}

#[test]
fn basic_test_test_prompts_not_empty() {
    let prompts = get_prompts();
    assert!(!prompts.is_empty(), "Prompts should not be empty");
}

#[test]
fn basic_test_test_config_default() {
    let config = Config::default();
    assert_eq!(config.cache.ttl_seconds, 300);
    assert_eq!(config.cache.max_entries, 1000);
}

#[test]
fn basic_test_test_platform_get_ra_binary_name() {
    let name = get_ra_binary_name();
    assert!(!name.is_empty());
}

#[test]
fn test_tools_definitions() {
    let tools = get_tools();
    assert!(!tools.is_empty());

    let tool_names: Vec<&str> = tools.iter().map(|t| t.name).collect();
    assert!(tool_names.contains(&"open_project"));
    assert!(tool_names.contains(&"status"));
}

#[test]
fn test_resources_definitions() {
    let resources = get_resources();
    assert!(!resources.is_empty());
}

#[test]
fn test_prompts_definitions() {
    let prompts = get_prompts();
    assert!(!prompts.is_empty());
}

#[test]
fn test_config_defaults() {
    let config = Config::default();
    assert_eq!(config.cache.ttl_seconds, 300);
    assert_eq!(config.cache.max_entries, 1000);
    assert!(config.cache.enabled);
}

#[test]
fn test_lsp_config_defaults() {
    let config = LspConfig::default();
    assert_eq!(config.timeout_seconds, 30);
    assert_eq!(config.max_retries, 3);
}

#[test]
fn test_security_config_defaults() {
    let config = SecurityConfig::default();
    assert_eq!(config.max_file_size_mb, 10);
    assert!(config.prevent_path_traversal);
}

#[test]
fn test_cache_sync() {
    let cache = Cache::<String, String>::new(std::time::Duration::from_secs(60).as_nanos(), 100);
    assert!(cache.is_async());
}

#[test]
fn mcp_tools_test_test_tools_not_empty() {
    let tools = get_tools();
    assert!(!tools.is_empty());
}

#[test]
fn mcp_tools_test_test_tools_have_open_project() {
    let tools = get_tools();
    let has_open_project = tools.iter().any(|t| t.name == "open_project");
    assert!(has_open_project);
}

#[test]
fn mcp_tools_test_test_resources_not_empty() {
    let resources = get_resources();
    assert!(!resources.is_empty());
}

#[test]
fn mcp_tools_test_test_prompts_not_empty() {
    let prompts = get_prompts();
    assert!(!prompts.is_empty());
}

#[test]
fn mcp_tools_test_test_config_default() {
    let config = Config::default();
    assert_eq!(config.cache.ttl_seconds, 300);
    assert_eq!(config.cache.max_entries, 1000);
}

#[test]
fn mcp_tools_test_test_platform_get_ra_binary_name() {
    let name = get_ra_binary_name();
    assert!(!name.is_empty());
}
