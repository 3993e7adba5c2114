pub mod cache;
pub mod clock;
pub mod config;
pub mod json;
pub mod keyed;
pub mod lsp;
pub mod mcp;
pub mod metrics;
pub mod paths;
pub mod security;
pub mod text;
pub mod updater;
pub mod platform;
pub mod workspace;
pub mod wire;
