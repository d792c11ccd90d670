//! The logic of a proxy that offers an OpenAI-compatible endpoint backed by a
//! Codex account.

pub mod auth;
pub mod cli;
pub mod clock;
pub mod codex;
pub mod config;
pub mod diagnostics;
pub mod encoding;
pub mod error;
pub mod headers;
pub mod json;
pub mod laws;
pub mod openai;
pub mod server;
pub mod stream;
pub mod text;
