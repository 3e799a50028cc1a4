//! Verified core of an MCP (Model Context Protocol) server that exposes the
//! operations of an LDK Server node as tools for AI agents.
//!
//! The library decides what the server answers: how JSON-RPC requests
//! are routed, how tool arguments become node requests, which tools exist and
//! what their input schemas say, how pagination tokens are written and read,
//! and how the configuration sources are combined. Reading stdin, talking to
//! the node and (de)serialising JSON happen around it.

pub mod text;
pub mod config;
pub mod json_args;
pub mod mcp;
pub mod protocol;
pub mod tools;
