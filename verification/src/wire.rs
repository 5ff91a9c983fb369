//! The messages of the Z.AI chat completion service.
use crate::chat::Temperature;
use vstd::prelude::*;

verus! {

/// Whether the model thinks before it answers.
#[derive(Clone, Copy, Debug, PartialEq, Eq, Structural)]
pub struct ChatThinking {
    pub kind: ChatThinkingType,
}

/// The two settings of `ChatThinking`.
#[derive(Clone, Copy, Debug, PartialEq, Eq, Structural)]
pub enum ChatThinkingType {
    Enabled,
    Disabled,
}

/// One chunk of a streamed completion.
#[derive(Debug, PartialEq)]
pub struct ZAiStreamResponse {
    pub id: String,
    pub request_id: Option<String>,
    pub created: u64,
    pub model: String,
    pub choices: Vec<ZAiStreamChoice>,
    pub usage: Option<ZAiUsage>,
    pub object_type: Option<String>,
}

/// What a chunk adds to one choice.
#[derive(Debug, PartialEq)]
pub struct ZAiStreamChoice {
    pub index: usize,
    pub delta: ZAiDelta,
    pub finish_reason: Option<String>,
}

/// The new parts of a choice's message.
#[derive(Debug, PartialEq)]
pub struct ZAiDelta {
    pub role: Option<String>,
    pub content: Option<String>,
    pub reasoning_content: Option<String>,
    pub tool_calls: Option<Vec<ZAiToolCallDelta>>,
}

/// The new parts of the tool call with this index.
#[derive(Debug, PartialEq)]
pub struct ZAiToolCallDelta {
    pub index: usize,
    pub id: Option<String>,
    pub function: Option<ZAiFunctionCallDelta>,
    pub call_type: Option<String>,
}

/// The new parts of a tool call's function.
#[derive(Debug, PartialEq)]
pub struct ZAiFunctionCallDelta {
    pub name: Option<String>,
    pub arguments: Option<String>,
}

/// A request for a completion.
#[derive(Debug, PartialEq)]
pub struct ZAiRequest {
    pub model: String,
    pub messages: Vec<ZAiMessage>,
    pub thinking: Option<ChatThinking>,
    pub temperature: Temperature,
    pub max_tokens: Option<u32>,
    pub stream: bool,
    pub tools: Vec<ZAiTool>,
    pub tool_choice: Option<ZAiToolChoice>,
    pub stop: Vec<String>,
}

/// One message of a request.
#[derive(Debug, PartialEq)]
pub struct ZAiMessage {
    pub role: ZAiRole,
    pub content: ZAiContent,
}

/// Who speaks in a message.
#[derive(Clone, Copy, Debug, PartialEq, Eq, Structural)]
pub enum ZAiRole {
    User,
    Assistant,
    System,
    Tool,
}

/// What a message says.
#[derive(Debug, PartialEq)]
pub enum ZAiContent {
    Text(String),
    ToolCalls(Vec<ZAiToolCall>),
    ToolResult(String),
}

/// A tool that the model may call.
#[derive(Debug, PartialEq)]
pub struct ZAiTool {
    pub kind: String,
    pub function: ZAiFunction,
}

/// The function that a tool consists of.
#[derive(Debug, PartialEq)]
pub struct ZAiFunction {
    pub name: String,
    pub description: String,
    pub parameters: serde_json::Value,
}

/// How the model chooses among the tools.
#[derive(Clone, Copy, Debug, PartialEq, Eq, Structural)]
pub enum ZAiToolChoice {
    Auto,
    Never,
}

/// A call of a tool.
#[derive(Debug, PartialEq)]
pub struct ZAiToolCall {
    pub id: String,
    pub kind: String,
    pub function: ZAiFunctionCall,
}

/// The function that a tool call names, and its arguments.
#[derive(Debug, PartialEq)]
pub struct ZAiFunctionCall {
    pub name: String,
    pub arguments: String,
}

/// A completion that came in one piece.
#[derive(Debug, PartialEq)]
pub struct ZAiResponse {
    pub id: String,
    pub request_id: String,
    pub created: u64,
    pub model: String,
    pub choices: Vec<ZAiChoice>,
    pub usage: Option<ZAiUsage>,
}

/// One choice of a completion.
#[derive(Debug, PartialEq)]
pub struct ZAiChoice {
    pub index: usize,
    pub message: ZAiMessageResponse,
    pub finish_reason: Option<String>,
}

/// The message of a choice.
#[derive(Debug, PartialEq)]
pub struct ZAiMessageResponse {
    pub role: String,
    pub content: String,
    pub reasoning_content: Option<String>,
    pub tool_calls: Option<Vec<ZAiToolCallResponse>>,
}

/// A tool call of a message.
#[derive(Debug, PartialEq)]
pub struct ZAiToolCallResponse {
    pub id: String,
    pub kind: String,
    pub function: ZAiFunctionResponse,
}

/// The function that a tool call names, and its arguments.
#[derive(Debug, PartialEq)]
pub struct ZAiFunctionResponse {
    pub name: String,
    pub arguments: serde_json::Value,
}

/// The tokens that the service counted.
#[derive(Clone, Copy, Debug, PartialEq, Eq, Structural)]
pub struct ZAiUsage {
    pub prompt_tokens: u64,
    pub completion_tokens: u64,
    pub total_tokens: u64,
}

} // verus!
