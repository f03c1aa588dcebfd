//! Token estimation and pre-routing decisions of the `ai-token-prelude`
//! gateway plugin.

pub mod text;
pub mod headers;
pub mod json;
pub mod body;
pub mod table;
pub mod config;
pub mod prelude;
pub mod pilot;
pub mod debug_text;
pub mod laws;
