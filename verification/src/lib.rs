//! A single-prompt, single-turn client pipeline: one request is assembled,
//! sent, and its streamed response rendered on two output sinks.

pub mod models;
pub mod orchestrator;
pub mod prompt;
pub mod protocol;
pub mod render;
pub mod stream;
pub mod text;
