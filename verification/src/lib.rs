//! Backend-dispatch core of a command-line chat client.
//!
//! A prompt is relayed to one of three inference backends, selected by an
//! immutable [`config::Config`]: an online HTTP endpoint speaking either an
//! OpenAI-compatible or a custom JSON schema, a local Ollama-style HTTP
//! server streaming newline-delimited JSON fragments, or a local helper
//! subprocess. This crate holds the verified logic of that relay: request
//! bodies are built here, responses are assembled here, and the dispatch
//! decision table lives here. The I/O itself (HTTP, process spawning, the
//! terminal loop) stays outside and hands this crate plain values.

pub mod config;
pub mod dispatch;
pub mod errors;
pub mod json_text;
pub mod jsonio;
pub mod ollama;
pub mod online;
pub mod request;
pub mod subproc;
pub mod text;
