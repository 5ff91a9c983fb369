//! The chat host's side of a completion: the request that it makes, the events
//! and the errors that it is told of.
use crate::json::json_text;
use vstd::prelude::*;

verus! {

/// Who speaks in a message of a request.
#[derive(Clone, Copy, Debug, PartialEq, Eq, Structural)]
pub enum Role {
    User,
    Assistant,
    System,
}

/// A call of a tool that a request repeats from the conversation so far.
#[derive(Debug, PartialEq)]
pub struct RequestToolUse {
    pub name: String,
    pub input: serde_json::Value,
}

/// The result of a tool that a request repeats from the conversation so far.
#[derive(Debug, PartialEq)]
pub struct RequestToolResult {
    /// The length in bytes of the result's debug output.
    pub debug_len: usize,
}

/// One item of a message.
#[derive(Debug, PartialEq)]
pub enum MessageContent {
    Text(String),
    Thinking { text: String },
    RedactedThinking(String),
    Image,
    ToolUse(RequestToolUse),
    ToolResult(RequestToolResult),
}

/// One message of a request.
#[derive(Debug, PartialEq)]
pub struct LanguageModelRequestMessage {
    pub role: Role,
    pub content: Vec<MessageContent>,
    /// Whether the host counts the contents of this message as empty.
    pub contents_empty: bool,
}

/// A tool that the model may call.
#[derive(Debug, PartialEq)]
pub struct LanguageModelRequestTool {
    pub name: String,
    pub description: String,
    pub input_schema: serde_json::Value,
}

/// How the host wants the model to choose among the tools.
#[derive(Clone, Copy, Debug, PartialEq, Eq, Structural)]
pub enum LanguageModelToolChoice {
    Auto,
    Never,
    /// Any choice besides the other two.
    Other,
}

/// A sampling temperature, as the bits of a single precision number.
#[derive(Clone, Copy, Debug, PartialEq, Eq, Structural)]
pub struct Temperature {
    pub bits: u32,
}

/// What the host asks of a model.
#[derive(Debug, PartialEq)]
pub struct LanguageModelRequest {
    pub messages: Vec<LanguageModelRequestMessage>,
    pub tools: Vec<LanguageModelRequestTool>,
    pub tool_choice: Option<LanguageModelToolChoice>,
    pub stop: Vec<String>,
    pub temperature: Option<Temperature>,
    pub thinking_allowed: bool,
}

/// Why a model stopped.
#[derive(Clone, Copy, Debug, PartialEq, Eq, Structural)]
pub enum StopReason {
    EndTurn,
    MaxTokens,
    ToolUse,
}

/// The tokens that a completion has used.
#[derive(Clone, Copy, Debug, PartialEq, Eq, Structural)]
pub struct TokenUsage {
    pub input_tokens: u64,
    pub output_tokens: u64,
    pub cache_creation_input_tokens: u64,
    pub cache_read_input_tokens: u64,
}

/// The input of a tool call.
#[derive(Debug, PartialEq)]
pub enum ToolInput {
    /// The JSON object without members.
    EmptyObject,
    /// The JSON string of these characters.
    Text(String),
    /// A JSON value that was parsed.
    Parsed(serde_json::Value),
}

/// The model's wish to call a tool.
#[derive(Debug, PartialEq)]
pub struct LanguageModelToolUse {
    pub id: String,
    pub name: String,
    pub raw_input: String,
    pub input: ToolInput,
    pub is_input_complete: bool,
}

/// One event of a completion.
#[derive(Debug, PartialEq)]
pub enum LanguageModelCompletionEvent {
    Text(String),
    Thinking { text: String, signature: Option<String> },
    ToolUse(LanguageModelToolUse),
    Stop(StopReason),
    UsageUpdate(TokenUsage),
}

/// Why a completion failed.
#[derive(Debug, PartialEq)]
pub enum LanguageModelCompletionError {
    /// No API key is known for the provider.
    NoApiKey { provider: String },
    /// The exchange with the provider's service failed.
    CloudFailure { provider: String, code: String, message: String },
}

/// An event, or the failure that stands in its place.
pub type CompletionResult = Result<LanguageModelCompletionEvent, LanguageModelCompletionError>;

/// What a `ToolInput` holds; a parsed value is taken by its compact text.
pub enum ToolInputModel {
    EmptyObject,
    Text(Seq<char>),
    Parsed(Seq<char>),
}

/// What a `LanguageModelToolUse` holds.
pub struct ToolUseModel {
    pub id: Seq<char>,
    pub name: Seq<char>,
    pub raw_input: Seq<char>,
    pub input: ToolInputModel,
    pub is_input_complete: bool,
}

/// What a `LanguageModelCompletionEvent` holds.
pub enum EventModel {
    Text(Seq<char>),
    Thinking { text: Seq<char>, signature: Option<Seq<char>> },
    ToolUse(ToolUseModel),
    Stop(StopReason),
    UsageUpdate(TokenUsage),
}

/// What a `LanguageModelCompletionError` holds.
pub enum ErrorModel {
    NoApiKey { provider: Seq<char> },
    CloudFailure { provider: Seq<char>, code: Seq<char>, message: Seq<char> },
}

/// What a `CompletionResult` holds.
pub type OutcomeModel = Result<EventModel, ErrorModel>;

impl View for ToolInput {
    type V = ToolInputModel;

    open spec fn view(&self) -> ToolInputModel {
        match self {
            ToolInput::EmptyObject => ToolInputModel::EmptyObject,
            ToolInput::Text(text) => ToolInputModel::Text(text@),
            ToolInput::Parsed(value) => ToolInputModel::Parsed(json_text(*value)),
        }
    }
}

impl View for LanguageModelToolUse {
    type V = ToolUseModel;

    open spec fn view(&self) -> ToolUseModel {
        ToolUseModel {
            id: self.id@,
            name: self.name@,
            raw_input: self.raw_input@,
            input: self.input@,
            is_input_complete: self.is_input_complete,
        }
    }
}

impl View for LanguageModelCompletionEvent {
    type V = EventModel;

    open spec fn view(&self) -> EventModel {
        match self {
            LanguageModelCompletionEvent::Text(text) => EventModel::Text(text@),
            LanguageModelCompletionEvent::Thinking { text, signature } => EventModel::Thinking {
                text: text@,
                signature: match signature {
                    Some(signature) => Some(signature@),
                    None => None,
                },
            },
            LanguageModelCompletionEvent::ToolUse(tool_use) => EventModel::ToolUse(tool_use@),
            LanguageModelCompletionEvent::Stop(reason) => EventModel::Stop(*reason),
            LanguageModelCompletionEvent::UsageUpdate(usage) => EventModel::UsageUpdate(*usage),
        }
    }
}

impl View for LanguageModelCompletionError {
    type V = ErrorModel;

    open spec fn view(&self) -> ErrorModel {
        match self {
            LanguageModelCompletionError::NoApiKey { provider } => ErrorModel::NoApiKey {
                provider: provider@,
            },
            LanguageModelCompletionError::CloudFailure {
                provider,
                code,
                message,
            } => ErrorModel::CloudFailure { provider: provider@, code: code@, message: message@ },
        }
    }
}

/// What `result` holds.
pub open spec fn outcome(result: CompletionResult) -> OutcomeModel {
    match result {
        Ok(event) => Ok(event@),
        Err(error) => Err(error@),
    }
}

/// What each element of `results` holds.
pub open spec fn outcomes(results: Seq<CompletionResult>) -> Seq<OutcomeModel> {
    results.map_values(|result: CompletionResult| outcome(result))
}

} // verus!
