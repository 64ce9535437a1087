//! Core of a streaming chat agent: the shared tool-server connection slot,
//! the chat-turn fragment forwarding, tool-schema normalisation and the
//! built-in clock tool.
pub mod json;
pub mod schema;
pub mod clock;
pub mod time_tool;
pub mod connection;
pub mod chat;
