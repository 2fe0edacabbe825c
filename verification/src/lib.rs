//! A client for MCP servers, without its input and output.
//!
//! The library holds what a client decides: which requests it sends, what the replies mean, when
//! it tries again and how long it waits before that, and what it keeps of what the server said.
//! Whoever uses it sends the requests and hands the answers back.

pub mod client;
pub mod codec;
pub mod error;
pub mod helper;
pub mod http;
pub mod json;
pub mod laws;
pub mod operation;
pub mod reply;
pub mod request;
pub mod retry;
pub mod text;
pub mod tool;
