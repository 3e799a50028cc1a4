//! The MCP messages that the server answers with: the result of
//! `initialize`, tool definitions and the results of tool calls.
use vstd::prelude::*;
use vstd::string::*;

use crate::tools::schema::ToolSchema;

verus! {

pub const PROTOCOL_VERSION: &'static str = "2024-11-05";

pub const SERVER_NAME: &'static str = "ldk-server-mcp";

pub const SERVER_VERSION: &'static str = "0.1.0";

/// The answer to `initialize`.
#[derive(Debug)]
pub struct InitializeResult {
    pub protocol_version: String,
    pub capabilities: Capabilities,
    pub server_info: ServerInfo,
}

/// What the server offers: tools.
#[derive(Debug)]
pub struct Capabilities {
    pub tools: ToolsCapability,
}

/// The tools capability, which has no settings.
#[derive(Debug)]
pub struct ToolsCapability {}

/// The name and version of the server.
#[derive(Debug)]
pub struct ServerInfo {
    pub name: String,
    pub version: String,
}

impl InitializeResult {
    /// The server's answer to `initialize`: protocol version 2024-11-05, the
    /// tools capability, and the server's name and version.
    pub fn new() -> (r: InitializeResult)
        ensures
            r.protocol_version@ == PROTOCOL_VERSION@,
            r.server_info.name@ == SERVER_NAME@,
            r.server_info.version@ == SERVER_VERSION@,
    {
        InitializeResult {
            protocol_version: String::from_str(PROTOCOL_VERSION),
            capabilities: Capabilities { tools: ToolsCapability {  } },
            server_info: ServerInfo {
                name: String::from_str(SERVER_NAME),
                version: String::from_str(SERVER_VERSION),
            },
        }
    }
}

/// A tool as `tools/list` shows it.
#[derive(Debug)]
pub struct ToolDefinition {
    pub name: String,
    pub description: String,
    pub input_schema: ToolSchema,
}

/// The result of a tool call: text content, flagged when it reports an error.
#[derive(Debug)]
pub struct ToolCallResult {
    pub content: Vec<ToolContent>,
    pub is_error: Option<bool>,
}

/// One piece of content of a tool call result.
#[derive(Debug)]
pub struct ToolContent {
    pub content_type: String,
    pub text: String,
}

/// A result that holds exactly one text item with this text.
pub open spec fn single_text(r: ToolCallResult, text: Seq<char>) -> bool {
    &&& r.content@.len() == 1
    &&& r.content@[0].content_type@ == "text"@
    &&& r.content@[0].text@ == text
}

/// A successful result with this text.
pub open spec fn is_success_with(r: ToolCallResult, text: Seq<char>) -> bool {
    single_text(r, text) && r.is_error is None
}

/// An error result with this text.
pub open spec fn is_error_with(r: ToolCallResult, text: Seq<char>) -> bool {
    single_text(r, text) && r.is_error == Some(true)
}

impl ToolCallResult {
    /// A successful result carrying `text`.
    pub fn success(text: String) -> (r: ToolCallResult)
        ensures
            is_success_with(r, text@),
    {
        ToolCallResult {
            content: vec![ToolContent { content_type: String::from_str("text"), text }],
            is_error: None,
        }
    }

    /// An error result carrying `text`.
    pub fn error(text: String) -> (r: ToolCallResult)
        ensures
            is_error_with(r, text@),
    {
        ToolCallResult {
            content: vec![ToolContent { content_type: String::from_str("text"), text }],
            is_error: Some(true),
        }
    }
}

} // verus!
