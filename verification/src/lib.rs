//! Verified core of an OpenAI-compatible gateway that runs the `gemini`
//! command-line client once per request and relays what it prints.

pub mod text;
pub mod models;
pub mod engine;
pub mod server;
