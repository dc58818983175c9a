//! Typed client library for an OpenAI-compatible local inference server.
//!
//! The library holds the verified logic: request payload construction
//! (JSON with unset optional fields omitted), response parsing for the
//! documented wire shapes, the server-sent-events stream decoder, and
//! HTTP status handling. The surrounding binary performs the actual
//! network I/O and feeds plain bytes and strings to this crate.

pub mod text;
pub mod model;
pub mod ser;
pub mod parse;
pub mod sse;
pub mod client;
pub mod laws;
