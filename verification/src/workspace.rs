pub mod config;
pub mod discovery;

pub mod manager;
