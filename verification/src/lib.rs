//! A verified core for an OpenAI-compatible chat-completion client.
//!
//! The library builds role-tagged message lists for six coding-assistant
//! tasks, frames them as `chat/completions` request bodies, parses the
//! response bodies it gets back, and sanitizes the returned text. All of
//! that is verified; the HTTP transport and the host-editor glue live
//! outside the library and exchange plain values with it.

pub mod client;
pub mod config;
pub mod errors;
pub mod extension;
pub mod json;
pub mod parse;
pub mod response;
pub mod sanitize;
pub mod text;
