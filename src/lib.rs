//! The core of a terminal chat client that drives a model and talks to MCP
//! servers: the JSON-RPC peer session with its pagination and dispatch, the
//! sampling approval bridge, and the chat session's state machine.
pub mod text;
pub mod command_line;
pub mod json;
pub mod rpc;
pub mod peer;
pub mod sampling;
pub mod permissions;
pub mod conversation;
pub mod input;
pub mod chat;
pub mod client;
pub mod mcp;
pub mod transport;
pub mod registry;
