//! A JSON-RPC 2.0 tool-invocation server library.
//!
//! The library holds the verified core: the JSON document model and its
//! wire codec, the tool registry, and the method dispatcher shared by the
//! line-oriented stream transport and the HTTP transport.

pub mod chars;
pub mod config;
pub mod dispatch;
pub mod echo;
pub mod grammar;
pub mod json;
pub mod laws;
pub mod parse;
pub mod protocol;
pub mod registry;
pub mod server;
pub mod stream;
pub mod text;

pub use json::Json;
