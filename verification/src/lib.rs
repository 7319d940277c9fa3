//! Decision logic of an MCP server that drives local music tools.

pub mod text;
pub mod reply;
pub mod launch;
pub mod paths;
pub mod config;
pub mod args;
pub mod tools;
pub mod pipeline;
pub mod laws;
pub mod request_laws;
