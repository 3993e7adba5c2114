//! The resources this server offers for reading.
use vstd::prelude::*;

verus! {

/// A resource as `resources/list` announces it.
pub struct Resource {
    pub uri: &'static str,
    pub name: &'static str,
    pub description: Option<&'static str>,
    pub mime_type: Option<&'static str>,
}

pub open spec fn opt_str_view(o: Option<&str>) -> Option<Seq<char>> {
    match o {
        Some(s) => Some(s@),
        None => None,
    }
}

pub open spec fn resource_view(r: Resource) -> (
    Seq<char>,
    Seq<char>,
    Option<Seq<char>>,
    Option<Seq<char>>,
) {
    (r.uri@, r.name@, opt_str_view(r.description), opt_str_view(r.mime_type))
}

pub open spec fn resource_views(rs: Seq<Resource>) -> Seq<
    (Seq<char>, Seq<char>, Option<Seq<char>>, Option<Seq<char>>),
> {
    rs.map_values(|r: Resource| resource_view(r))
}

/// What `get_resources` lists, in order: URI, name, description, MIME type.
pub open spec fn resource_table() -> Seq<
    (Seq<char>, Seq<char>, Option<Seq<char>>, Option<Seq<char>>),
> {
    seq![
        (
            "health://status"@,
            "Health Status"@,
            Some("Server health and status information"@),
            Some("application/json"@),
        ),
        (
            "metrics://server"@,
            "Server Metrics"@,
            Some("Performance metrics for the MCP server"@),
            Some("application/json"@),
        ),
        (
            "config://current"@,
            "Current Configuration"@,
            Some("Current server configuration"@),
            Some("application/json"@),
        ),
        (
            "version://rust-analyzer"@,
            "rust-analyzer Version"@,
            Some("Current rust-analyzer version information"@),
            Some("text/plain"@),
        ),
        (
            "rust://version"@,
            "rust-analyzer Version"@,
            Some("Current rust-analyzer version"@),
            Some("text/plain"@),
        ),
        (
            "rust://config"@,
            "Server Configuration"@,
            Some("Server configuration"@),
            Some("application/json"@),
        ),
    ]
}

/// The resources this server offers.
pub fn get_resources() -> (r: Vec<Resource>)
    ensures
        resource_views(r@) == resource_table(),
{
    let r = vec![
        Resource {
            uri: "health://status",
            name: "Health Status",
            description: Some("Server health and status information"),
            mime_type: Some("application/json"),
        },
        Resource {
            uri: "metrics://server",
            name: "Server Metrics",
            description: Some("Performance metrics for the MCP server"),
            mime_type: Some("application/json"),
        },
        Resource {
            uri: "config://current",
            name: "Current Configuration",
            description: Some("Current server configuration"),
            mime_type: Some("application/json"),
        },
        Resource {
            uri: "version://rust-analyzer",
            name: "rust-analyzer Version",
            description: Some("Current rust-analyzer version information"),
            mime_type: Some("text/plain"),
        },
        Resource {
            uri: "rust://version",
            name: "rust-analyzer Version",
            description: Some("Current rust-analyzer version"),
            mime_type: Some("text/plain"),
        },
        Resource {
            uri: "rust://config",
            name: "Server Configuration",
            description: Some("Server configuration"),
            mime_type: Some("application/json"),
        },
    ];
    proof {
        assert(resource_views(r@) =~= resource_table());
    }
    r
}

} // verus!
