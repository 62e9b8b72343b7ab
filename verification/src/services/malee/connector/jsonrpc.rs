//! The JSON-RPC envelope of the connector's replies.
use vstd::prelude::*;

verus! {

/// A JSON-RPC reply.
#[derive(Debug, Clone)]
pub struct McpResponse {
    pub jsonrpc: String,
    pub id: Option<u64>,
    pub result: Option<McpResult>,
    pub error: Option<McpError>,
}

/// The result of a tool call.
#[derive(Debug, Clone)]
pub struct McpResult {
    pub content: Vec<McpContent>,
    pub is_error: Option<bool>,
}

/// One piece of a tool call's content.
#[derive(Debug, Clone)]
pub struct McpContent {
    pub type_: String,
    pub text: String,
}

/// A JSON-RPC error.
#[derive(Debug, Clone)]
pub struct McpError {
    pub code: i64,
    pub message: String,
}

} // verus!
