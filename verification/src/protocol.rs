//! JSON-RPC 2.0 messages and how a request is routed.
//!
//! A request's `id` and the results that the server returns are JSON values
//! that the server carries through unchanged; the parameters of a request are
//! read as `ToolArgs`.
use vstd::prelude::*;
use vstd::string::*;

use serde_json::Value;

use crate::json_args::{ArgValue, ToolArgs};

verus! {

/// A JSON value, carried through unread.
#[verifier::external_type_specification]
#[verifier::external_body]
pub struct ExJsonValue(serde_json::Value);

pub const PARSE_ERROR: i64 = -32700;

pub const METHOD_NOT_FOUND: i64 = -32601;

pub const INVALID_PARAMS: i64 = -32602;

pub const INTERNAL_ERROR: i64 = -32603;

/// A request (or, without `id`, a notification).
pub struct JsonRpcRequest {
    pub jsonrpc: String,
    pub id: Option<Value>,
    pub method: String,
    pub params: Option<ToolArgs>,
}

/// A successful response.
pub struct JsonRpcResponse {
    pub jsonrpc: String,
    pub id: Value,
    pub result: Value,
}

/// An error response.
pub struct JsonRpcErrorResponse {
    pub jsonrpc: String,
    pub id: Value,
    pub error: JsonRpcError,
}

/// The error of an error response.
pub struct JsonRpcError {
    pub code: i64,
    pub message: String,
    pub data: Option<Value>,
}

impl JsonRpcResponse {
    /// A JSON-RPC 2.0 response to request `id` with `result`.
    pub fn new(id: Value, result: Value) -> (r: JsonRpcResponse)
        ensures
            r.jsonrpc@ == "2.0"@,
            r.id == id,
            r.result == result,
    {
        JsonRpcResponse { jsonrpc: String::from_str("2.0"), id, result }
    }
}

impl JsonRpcErrorResponse {
    /// A JSON-RPC 2.0 error response to request `id`, without error data.
    pub fn new(id: Value, code: i64, message: String) -> (r: JsonRpcErrorResponse)
        ensures
            r.jsonrpc@ == "2.0"@,
            r.id == id,
            r.error.code == code,
            r.error.message == message,
            r.error.data is None,
    {
        JsonRpcErrorResponse {
            jsonrpc: String::from_str("2.0"),
            id,
            error: JsonRpcError { code, message, data: None },
        }
    }

    /// The answer to a line that is not a JSON-RPC request: code -32700,
    /// message "Parse error".
    pub fn parse_error(id: Value) -> (r: JsonRpcErrorResponse)
        ensures
            r.jsonrpc@ == "2.0"@,
            r.id == id,
            r.error.code == PARSE_ERROR,
            r.error.message@ == "Parse error"@,
            r.error.data is None,
    {
        JsonRpcErrorResponse::new(id, PARSE_ERROR, String::from_str("Parse error"))
    }
}

/// What the server does with a request.
pub enum Dispatch {
    /// A notification: no answer.
    Ignore,
    /// Answer `initialize`.
    Initialize(Value),
    /// Answer `tools/list`.
    ListTools(Value),
    /// Call the tool `name` with `arguments` and answer with its result.
    CallTool { id: Value, name: String, arguments: ToolArgs },
    /// Answer with this error.
    Reject(JsonRpcErrorResponse),
}

/// The tool that a `tools/call` request names: parameter `name` when it is a
/// string, else the empty name.
pub open spec fn called_tool_name(req: JsonRpcRequest) -> Seq<char> {
    match req.params {
        Some(p) => match p.str_arg("name"@) {
            Some(n) => n,
            None => Seq::empty(),
        },
        None => Seq::empty(),
    }
}

/// The arguments of a `tools/call` request: parameter `arguments` when it is
/// an object, else no arguments.
pub open spec fn called_tool_arguments(req: JsonRpcRequest) -> Seq<(String, ArgValue)> {
    match req.params {
        Some(p) => p.object_arg("arguments"@),
        None => Seq::empty(),
    }
}

/// How a request is answered: notifications (requests without `id`) are not
/// answered; `initialize`, `tools/list` and `tools/call` are served; any
/// other method is refused with "Method not found".
pub open spec fn dispatch_spec(req: JsonRpcRequest, d: Dispatch) -> bool {
    match req.id {
        None => d is Ignore,
        Some(id) => if req.method@ == "initialize"@ {
            d == Dispatch::Initialize(id)
        } else if req.method@ == "tools/list"@ {
            d == Dispatch::ListTools(id)
        } else if req.method@ == "tools/call"@ {
            &&& d matches Dispatch::CallTool { id: i, name, arguments }
            &&& i == id
            &&& name@ == called_tool_name(req)
            &&& arguments.entries@ == called_tool_arguments(req)
        } else {
            &&& d matches Dispatch::Reject(e)
            &&& e.jsonrpc@ == "2.0"@
            &&& e.id == id
            &&& e.error.code == METHOD_NOT_FOUND
            &&& e.error.message@ == "Method not found: "@ + req.method@
            &&& e.error.data is None
        },
    }
}

/// Decides how to answer a request.
pub fn dispatch_request(req: JsonRpcRequest) -> (d: Dispatch)
    ensures
        dispatch_spec(req, d),
{
    let ghost old_req = req;
    let JsonRpcRequest { jsonrpc: _, id, method, params } = req;
    let id = match id {
        Some(id) => id,
        None => return Dispatch::Ignore,
    };
    if method == String::from_str("initialize") {
        Dispatch::Initialize(id)
    } else if method == String::from_str("tools/list") {
        Dispatch::ListTools(id)
    } else if method == String::from_str("tools/call") {
        let params = match params {
            Some(p) => p,
            None => ToolArgs::new(),
        };
        let name = match params.get_str("name") {
            Some(n) => n,
            None => String::new(),
        };
        let arguments = params.into_object("arguments");
        Dispatch::CallTool { id, name, arguments }
    } else {
        let mut message = String::from_str("Method not found: ");
        message.append(method.as_str());
        Dispatch::Reject(JsonRpcErrorResponse::new(id, METHOD_NOT_FOUND, message))
    }
}

} // verus!
