//! The health report of the server and its short text form.
use vstd::prelude::*;
use crate::text::{append_decimal, dec_digits, str_eq};

verus! {

/// The state of the server as a whole.
pub struct HealthStatus {
    pub server_version: String,
    pub uptime_seconds: u64,
    pub rust_analyzer: RaHealth,
    pub lsp_connection: LspHealth,
    pub cache_stats: CacheHealth,
}

/// The rust-analyzer binary in use.
pub struct RaHealth {
    pub path: String,
    pub version: Option<String>,
    pub up_to_date: bool,
    pub auto_update_enabled: bool,
}

/// The language server connection.
pub struct LspHealth {
    pub connected: bool,
    pub workspace_loaded: bool,
    pub active_workspace: Option<String>,
}

/// The response cache.
pub struct CacheHealth {
    pub enabled: bool,
    pub memory_entries: usize,
}

pub open spec fn opt_text(o: Option<String>) -> Option<Seq<char>> {
    match o {
        Some(s) => Some(s@),
        None => None,
    }
}

/// The installed release is the latest one: both are known and the same.
pub open spec fn is_up_to_date(installed: Option<Seq<char>>, latest: Option<Seq<char>>) -> bool {
    match (installed, latest) {
        (Some(a), Some(b)) => a == b,
        _ => false,
    }
}

/// Builds the report from what was read: the installed and the latest
/// release tags (`None` where they could not be had), and, for the
/// language server, `None` when none runs, else whether it is ready.
pub fn get_health_status(
    server_version: String,
    uptime_seconds: u64,
    ra_path: String,
    ra_version: Option<String>,
    latest: Option<String>,
    auto_update: bool,
    lsp_ready: Option<bool>,
    active_workspace: Option<String>,
    cache_enabled: bool,
) -> (r: HealthStatus)
    ensures
        r.server_version@ == server_version@,
        r.uptime_seconds == uptime_seconds,
        r.rust_analyzer.path@ == ra_path@,
        opt_text(r.rust_analyzer.version) == opt_text(ra_version),
        r.rust_analyzer.up_to_date == is_up_to_date(opt_text(ra_version), opt_text(latest)),
        r.rust_analyzer.auto_update_enabled == auto_update,
        r.lsp_connection.connected == lsp_ready.is_some(),
        r.lsp_connection.workspace_loaded == (lsp_ready == Some(true)),
        opt_text(r.lsp_connection.active_workspace) == opt_text(active_workspace),
        r.cache_stats.enabled == cache_enabled,
        r.cache_stats.memory_entries == 0,
{
    let up_to_date = match (&ra_version, &latest) {
        (Some(current), Some(l)) => str_eq(current.as_str(), l.as_str()),
        _ => false,
    };
    let workspace_loaded = match lsp_ready {
        Some(ready) => ready,
        None => false,
    };
    HealthStatus {
        server_version,
        uptime_seconds,
        rust_analyzer: RaHealth {
            path: ra_path,
            version: ra_version,
            up_to_date,
            auto_update_enabled: auto_update,
        },
        lsp_connection: LspHealth {
            connected: lsp_ready.is_some(),
            workspace_loaded,
            active_workspace,
        },
        cache_stats: CacheHealth { enabled: cache_enabled, memory_entries: 0 },
    }
}

pub open spec fn bool_text(b: bool) -> Seq<char> {
    if b {
        "true"@
    } else {
        "false"@
    }
}

/// The short `health_check` text.
pub open spec fn health_summary(s: HealthStatus) -> Seq<char> {
    "Server: v"@ + s.server_version@ + "\nUptime: "@ + dec_digits(s.uptime_seconds as nat) + "s\nLSP Connected: "@
        + bool_text(s.lsp_connection.connected) + "\nrust-analyzer: "@ + match s.rust_analyzer.version {
        Some(v) => v@,
        None => Seq::empty(),
    }
}

/// Writes the report as the four lines `health_check` answers with when no
/// details are asked for.
pub fn health_check_text(status: &HealthStatus) -> (r: String)
    ensures
        r@ == health_summary(*status),
{
    let mut s = String::from_str("Server: v");
    s.append(status.server_version.as_str());
    s.append("\nUptime: ");
    append_decimal(&mut s, status.uptime_seconds);
    s.append("s\nLSP Connected: ");
    if status.lsp_connection.connected {
        s.append("true");
    } else {
        s.append("false");
    }
    s.append("\nrust-analyzer: ");
    match &status.rust_analyzer.version {
        Some(v) => {
            s.append(v.as_str());
        },
        None => {
            proof {
                assert(s@ + Seq::<char>::empty() =~= s@);
            }
        },
    }
    s
}

} // verus!
