//! Server configuration: its defaults, what the environment overrides, and
//! where a configuration is read from.
use vstd::prelude::*;
use crate::text::{chars_of, parse_decimal, parse_unsigned, str_eq};

verus! {

/// The whole configuration of the server.
pub struct Config {
    pub rust_analyzer: RustAnalyzerConfig,
    pub lsp: LspConfig,
    pub cache: CacheConfig,
    pub security: SecurityConfig,
    pub logging: LoggingConfig,
}

/// Where rust-analyzer comes from and whether it is kept up to date.
pub struct RustAnalyzerConfig {
    pub path: Option<String>,
    pub auto_update: bool,
    pub update_channel: String,
}

/// How the LSP connection behaves.
pub struct LspConfig {
    pub timeout_seconds: u64,
    pub max_retries: u32,
    pub crash_recovery: bool,
}

/// Result caching. `disk_cache_dir` is the directory's path as text.
pub struct CacheConfig {
    pub enabled: bool,
    pub ttl_seconds: u64,
    pub max_entries: usize,
    pub disk_cache_dir: Option<String>,
}

/// Limits on which files the tools touch.
pub struct SecurityConfig {
    pub allowed_directories: Vec<String>,
    pub blocked_paths: Vec<String>,
    pub max_file_size_mb: u64,
    pub prevent_path_traversal: bool,
}

/// Log level and format names.
pub struct LoggingConfig {
    pub level: String,
    pub format: String,
}

pub open spec fn opt_string_view(o: Option<String>) -> Option<Seq<char>> {
    match o {
        Some(s) => Some(s@),
        None => None,
    }
}

/// The given settings of the rust-analyzer, LSP and logging sections.
pub open spec fn config_has(
    c: Config,
    path: Option<Seq<char>>,
    auto_update: bool,
    update_channel: Seq<char>,
    timeout_seconds: u64,
    max_retries: u32,
    crash_recovery: bool,
    level: Seq<char>,
    format: Seq<char>,
) -> bool {
    &&& opt_string_view(c.rust_analyzer.path) == path
    &&& c.rust_analyzer.auto_update == auto_update
    &&& c.rust_analyzer.update_channel@ == update_channel
    &&& c.lsp.timeout_seconds == timeout_seconds
    &&& c.lsp.max_retries == max_retries
    &&& c.lsp.crash_recovery == crash_recovery
    &&& c.logging.level@ == level
    &&& c.logging.format@ == format
}

/// The default cache section: enabled, 300 s, 1000 entries, no disk directory.
pub open spec fn is_default_cache(c: CacheConfig) -> bool {
    &&& c.enabled
    &&& c.ttl_seconds == 300
    &&& c.max_entries == 1000
    &&& c.disk_cache_dir is None
}

/// The default security section: no lists, 10 MB, traversal prevented.
pub open spec fn is_default_security(s: SecurityConfig) -> bool {
    &&& s.allowed_directories@.len() == 0
    &&& s.blocked_paths@.len() == 0
    &&& s.max_file_size_mb == 10
    &&& s.prevent_path_traversal
}

/// The defaults of every section.
pub open spec fn is_default_config(c: Config) -> bool {
    &&& config_has(c, None, true, "nightly"@, 30, 3, true, "info"@, "text"@)
    &&& is_default_cache(c.cache)
    &&& is_default_security(c.security)
}

pub fn default_true() -> (r: bool)
    ensures
        r,
{
    true
}

pub fn default_timeout() -> (r: u64)
    ensures
        r == 30,
{
    30
}

pub fn default_retries() -> (r: u32)
    ensures
        r == 3,
{
    3
}

pub fn default_ttl() -> (r: u64)
    ensures
        r == 300,
{
    300
}

pub fn default_max_entries() -> (r: usize)
    ensures
        r == 1000,
{
    1000
}

pub fn default_max_file_size() -> (r: u64)
    ensures
        r == 10,
{
    10
}

impl Default for RustAnalyzerConfig {
    fn default() -> (r: Self)
        ensures
            r.path is None,
            r.auto_update,
            r.update_channel@ == "nightly"@,
    {
        RustAnalyzerConfig {
            path: None,
            auto_update: true,
            update_channel: String::from_str("nightly"),
        }
    }
}

impl Default for LspConfig {
    fn default() -> (r: Self)
        ensures
            r.timeout_seconds == 30,
            r.max_retries == 3,
            r.crash_recovery,
    {
        LspConfig { timeout_seconds: 30, max_retries: 3, crash_recovery: true }
    }
}

impl Default for CacheConfig {
    fn default() -> (r: Self)
        ensures
            is_default_cache(r),
    {
        CacheConfig { enabled: true, ttl_seconds: 300, max_entries: 1000, disk_cache_dir: None }
    }
}

impl Default for SecurityConfig {
    fn default() -> (r: Self)
        ensures
            is_default_security(r),
    {
        SecurityConfig {
            allowed_directories: Vec::new(),
            blocked_paths: Vec::new(),
            max_file_size_mb: 10,
            prevent_path_traversal: true,
        }
    }
}

impl Default for LoggingConfig {
    fn default() -> (r: Self)
        ensures
            r.level@ == "info"@,
            r.format@ == "text"@,
    {
        LoggingConfig { level: String::from_str("info"), format: String::from_str("text") }
    }
}

impl Default for Config {
    fn default() -> (r: Self)
        ensures
            is_default_config(r),
    {
        Config {
            rust_analyzer: RustAnalyzerConfig::default(),
            lsp: LspConfig::default(),
            cache: CacheConfig::default(),
            security: SecurityConfig::default(),
            logging: LoggingConfig::default(),
        }
    }
}

/// The environment variables the configuration reads, each as
/// `std::env::var(..).ok()` gives it.
pub struct EnvVars {
    /// `RUST_ANALYZER_PATH`
    pub rust_analyzer_path: Option<String>,
    /// `RA_MCP_AUTO_UPDATE`
    pub auto_update: Option<String>,
    /// `RA_MCP_UPDATE_CHANNEL`
    pub update_channel: Option<String>,
    /// `RA_MCP_TIMEOUT`
    pub timeout: Option<String>,
    /// `RA_MCP_MAX_RETRIES`
    pub max_retries: Option<String>,
    /// `RA_MCP_CRASH_RECOVERY`
    pub crash_recovery: Option<String>,
    /// `RA_MCP_LOG_LEVEL`
    pub log_level: Option<String>,
    /// `RA_MCP_LOG_FORMAT`
    pub log_format: Option<String>,
}

/// A flag variable: set means "is it exactly `true`", unset means true.
pub open spec fn env_flag(v: Option<Seq<char>>) -> bool {
    match v {
        Some(s) => s == "true"@,
        None => true,
    }
}

/// A numeric variable: its value when it parses, else `default`.
pub open spec fn env_number(v: Option<Seq<char>>, max: nat, default: nat) -> nat {
    match v {
        Some(s) => match parse_unsigned(s, max) {
            Some(n) => n,
            None => default,
        },
        None => default,
    }
}

/// A text variable: its value when set, else `default`.
pub open spec fn env_text(v: Option<Seq<char>>, default: Seq<char>) -> Seq<char> {
    match v {
        Some(s) => s,
        None => default,
    }
}

fn flag_from(v: &Option<String>) -> (r: bool)
    ensures
        r == env_flag(opt_string_view(*v)),
{
    match v {
        Some(s) => str_eq(s.as_str(), "true"),
        None => true,
    }
}

fn number_from(v: &Option<String>, max: u64, default: u64) -> (r: u64)
    requires
        default <= max,
    ensures
        r as nat == env_number(opt_string_view(*v), max as nat, default as nat),
        r <= max,
{
    match v {
        Some(s) => {
            let cs = chars_of(s.as_str());
            match parse_decimal(cs.as_slice(), max) {
                Some(n) => n,
                None => default,
            }
        },
        None => default,
    }
}

fn text_from(v: Option<String>, default: &str) -> (r: String)
    ensures
        r@ == env_text(opt_string_view(v), default@),
{
    match v {
        Some(s) => s,
        None => String::from_str(default),
    }
}

impl EnvVars {
    /// No variable set.
    pub fn unset() -> (r: EnvVars)
        ensures
            r.rust_analyzer_path is None,
            r.auto_update is None,
            r.update_channel is None,
            r.timeout is None,
            r.max_retries is None,
            r.crash_recovery is None,
            r.log_level is None,
            r.log_format is None,
    {
        EnvVars {
            rust_analyzer_path: None,
            auto_update: None,
            update_channel: None,
            timeout: None,
            max_retries: None,
            crash_recovery: None,
            log_level: None,
            log_format: None,
        }
    }
}

impl Config {
    /// The configuration that the environment variables give; the cache and
    /// security sections keep their defaults.
    pub fn load_from_env(env: EnvVars) -> (r: Config)
        ensures
            config_has(
                r,
                opt_string_view(env.rust_analyzer_path),
                env_flag(opt_string_view(env.auto_update)),
                env_text(opt_string_view(env.update_channel), "nightly"@),
                env_number(opt_string_view(env.timeout), u64::MAX as nat, 30) as u64,
                env_number(opt_string_view(env.max_retries), u32::MAX as nat, 3) as u32,
                env_flag(opt_string_view(env.crash_recovery)),
                env_text(opt_string_view(env.log_level), "info"@),
                env_text(opt_string_view(env.log_format), "text"@),
            ),
            is_default_cache(r.cache),
            is_default_security(r.security),
    {
        let auto_update = flag_from(&env.auto_update);
        let crash_recovery = flag_from(&env.crash_recovery);
        let timeout_seconds = number_from(&env.timeout, u64::MAX, 30);
        let max_retries = number_from(&env.max_retries, u32::MAX as u64, 3) as u32;
        Config {
            rust_analyzer: RustAnalyzerConfig {
                path: env.rust_analyzer_path,
                auto_update,
                update_channel: text_from(env.update_channel, "nightly"),
            },
            lsp: LspConfig { timeout_seconds, max_retries, crash_recovery },
            cache: CacheConfig::default(),
            security: SecurityConfig::default(),
            logging: LoggingConfig {
                level: text_from(env.log_level, "info"),
                format: text_from(env.log_format, "text"),
            },
        }
    }
}

/// Law: with no variable set, the environment gives exactly the defaults.
pub proof fn law_unset_environment_gives_defaults(env: EnvVars, c: Config)
    requires
        env.rust_analyzer_path is None,
        env.auto_update is None,
        env.update_channel is None,
        env.timeout is None,
        env.max_retries is None,
        env.crash_recovery is None,
        env.log_level is None,
        env.log_format is None,
        config_has(
            c,
            opt_string_view(env.rust_analyzer_path),
            env_flag(opt_string_view(env.auto_update)),
            env_text(opt_string_view(env.update_channel), "nightly"@),
            env_number(opt_string_view(env.timeout), u64::MAX as nat, 30) as u64,
            env_number(opt_string_view(env.max_retries), u32::MAX as nat, 3) as u32,
            env_flag(opt_string_view(env.crash_recovery)),
            env_text(opt_string_view(env.log_level), "info"@),
            env_text(opt_string_view(env.log_format), "text"@),
        ),
        is_default_cache(c.cache),
        is_default_security(c.security),
    ensures
        is_default_config(c),
{
}

/// Where the configuration is read from.
#[derive(PartialEq, Eq, Structural, Clone, Copy, Debug)]
pub enum ConfigSource {
    /// The file at the given path.
    File,
    /// The environment, the default file being absent.
    Environment,
    /// Nowhere: a file was named that does not exist.
    Missing,
}

/// The path that the configuration option defaults to.
pub open spec fn default_config_path() -> Seq<char> {
    "config/default.toml"@
}

/// Decides where the configuration comes from: the file when it exists; the
/// environment when the default file is absent; otherwise nothing (an error).
pub fn load_config(config_path: &str, path_exists: bool) -> (r: ConfigSource)
    ensures
        path_exists ==> r == ConfigSource::File,
        !path_exists && config_path@ == default_config_path() ==> r
            == ConfigSource::Environment,
        !path_exists && config_path@ != default_config_path() ==> r == ConfigSource::Missing,
{
    if path_exists {
        ConfigSource::File
    } else if str_eq(config_path, "config/default.toml") {
        ConfigSource::Environment
    } else {
        ConfigSource::Missing
    }
}

} // verus!
