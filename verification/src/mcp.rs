pub mod handlers;
pub mod health;
pub mod prompts;
pub mod protocol;
pub mod resources;
pub mod tools;
