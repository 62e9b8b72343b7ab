//! Messages exchanged with a language model.
use vstd::prelude::*;

verus! {

/// One chat message.
#[derive(Debug, Clone)]
pub struct LlmMessage {
    pub role: String,
    pub content: String,
    pub tool_calls: Option<Vec<LlmToolCall>>,
    pub tool_call_id: Option<String>,
}

/// A tool call made by the assistant.
#[derive(Debug, Clone)]
pub struct LlmToolCall {
    pub id: String,
    pub type_: String,
    pub function: LlmFunctionCall,
}

/// The function a tool call invokes; `arguments` is JSON text.
#[derive(Debug, Clone)]
pub struct LlmFunctionCall {
    pub name: String,
    pub arguments: String,
}

/// A tool advertised to the model.
#[derive(Debug, Clone)]
pub struct ToolSchema {
    pub type_: String,
    pub function: ToolFunctionSchema,
}

/// A tool's name, description and parameters; the parameters are a JSON
/// Schema object, held as JSON text.
#[derive(Debug, Clone)]
pub struct ToolFunctionSchema {
    pub name: String,
    pub description: String,
    pub parameters: String,
}

/// The body of a streaming chat request.
#[derive(Debug, Clone)]
pub struct ChatRequest {
    pub model: String,
    pub messages: Vec<LlmMessage>,
    pub stream: bool,
    pub tools: Option<Vec<ToolSchema>>,
    pub tool_choice: Option<String>,
}

/// The streaming chat request for `model`: the messages, streaming on, the
/// tools only where there are any, and `tool_choice: "auto"` only with tools
/// and where the protocol takes it (`with_choice`).
pub fn chat_request(model: &str, messages: Vec<LlmMessage>, tools: Vec<ToolSchema>, with_choice: bool) -> (r:
    ChatRequest)
    ensures
        r.model@ == model@,
        r.messages@ == messages@,
        r.stream,
        tools@.len() == 0 ==> r.tools is None,
        tools@.len() > 0 ==> (r.tools matches Some(t) && t@ == tools@),
        with_choice && tools@.len() > 0 ==> (r.tool_choice matches Some(c) && c@ == "auto"@),
        !(with_choice && tools@.len() > 0) ==> r.tool_choice is None,
{
    let has_tools = tools.len() > 0;
    ChatRequest {
        model: String::from_str(model),
        messages,
        stream: true,
        tools: if has_tools {
            Some(tools)
        } else {
            None
        },
        tool_choice: if has_tools && with_choice {
            Some(String::from_str("auto"))
        } else {
            None
        },
    }
}

} // verus!
