//! From the host's request to the one that the service takes.
use crate::chat::{
    LanguageModelRequest, LanguageModelRequestMessage, LanguageModelRequestTool,
    LanguageModelToolChoice, MessageContent, Role, Temperature,
};
use crate::text::{join, joined};
use crate::wire::{
    ChatThinking, ChatThinkingType, ZAiContent, ZAiFunction, ZAiMessage, ZAiRequest, ZAiRole,
    ZAiTool, ZAiToolChoice,
};
use vstd::prelude::*;

verus! {

/// The bits of the single precision number one.
pub const DEFAULT_TEMPERATURE_BITS: u32 = 0x3f80_0000;

/// The temperature of a request that names none: one.
pub fn default_temperature() -> (r: Temperature)
    ensures
        r.bits == DEFAULT_TEMPERATURE_BITS,
{
    Temperature { bits: DEFAULT_TEMPERATURE_BITS }
}

/// The service's name for `role`.
pub open spec fn role_of(role: Role) -> ZAiRole {
    match role {
        Role::User => ZAiRole::User,
        Role::Assistant => ZAiRole::Assistant,
        Role::System => ZAiRole::System,
    }
}

/// The words in `item`: those of text and of thinking, unless there are none.
pub open spec fn text_part(item: MessageContent) -> Option<Seq<char>> {
    match item {
        MessageContent::Text(text) => if text@.len() == 0 {
            None
        } else {
            Some(text@)
        },
        MessageContent::Thinking { text } => if text@.len() == 0 {
            None
        } else {
            Some(text@)
        },
        _ => None,
    }
}

/// The words in each item of `content` that has any.
pub open spec fn text_parts(content: Seq<MessageContent>) -> Seq<Seq<char>> {
    content.filter_map(|item: MessageContent| text_part(item))
}

/// All words in `content`, with a space between those of two items.
pub open spec fn message_text(content: Seq<MessageContent>) -> Seq<char> {
    joined(text_parts(content), " "@)
}

/// A message of text.
pub struct MessageModel {
    pub role: ZAiRole,
    pub text: Seq<char>,
}

/// The message that is sent for `message`, if one is.
pub open spec fn sent_message(message: LanguageModelRequestMessage) -> Option<MessageModel> {
    if message.contents_empty || message_text(message.content@).len() == 0 {
        None
    } else {
        Some(
            MessageModel { role: role_of(message.role), text: message_text(message.content@) },
        )
    }
}

/// The messages that are sent for `messages`.
pub open spec fn sent_messages(messages: Seq<LanguageModelRequestMessage>) -> Seq<MessageModel> {
    messages.filter_map(|message: LanguageModelRequestMessage| sent_message(message))
}

/// Whether `message` is the message of text that `model` says.
pub open spec fn says(message: ZAiMessage, model: MessageModel) -> bool {
    &&& message.role == model.role
    &&& message.content matches ZAiContent::Text(text) && text@ == model.text
}

/// Whether `messages` are the messages of text that `models` say, in order.
pub open spec fn says_all(messages: Seq<ZAiMessage>, models: Seq<MessageModel>) -> bool {
    &&& messages.len() == models.len()
    &&& forall|i: int|
        0 <= i < models.len() ==> says(#[trigger] messages[i], models[i])
}

/// Whether `tool` describes the tool `requested` to the service.
pub open spec fn describes(tool: ZAiTool, requested: LanguageModelRequestTool) -> bool {
    &&& tool.kind@ == "function"@
    &&& tool.function.name == requested.name
    &&& tool.function.description == requested.description
    &&& tool.function.parameters == requested.input_schema
}

/// Whether `tools` describe the tools `requested`, in order.
pub open spec fn describes_all(
    tools: Seq<ZAiTool>,
    requested: Seq<LanguageModelRequestTool>,
) -> bool {
    &&& tools.len() == requested.len()
    &&& forall|i: int|
        0 <= i < requested.len() ==> describes(#[trigger] tools[i], requested[i])
}

/// The service's name for `choice`, if there is one. Whatever is not a ban of
/// all tools leaves the choice to the model.
pub open spec fn tool_choice_of(choice: Option<LanguageModelToolChoice>) -> Option<ZAiToolChoice> {
    match choice {
        Some(LanguageModelToolChoice::Never) => Some(ZAiToolChoice::Never),
        Some(_) => Some(ZAiToolChoice::Auto),
        None => None,
    }
}

/// The words in each item of `content` that has any.
fn collect_text_parts(content: &Vec<MessageContent>) -> (r: Vec<String>)
    ensures
        r@.map_values(|part: String| part@) == text_parts(content@),
{
    let ghost pick = |item: MessageContent| text_part(item);
    let mut parts: Vec<String> = Vec::new();
    let mut i: usize = 0;
    assert(parts@.map_values(|part: String| part@) =~= text_parts(content@.take(0)));
    while i < content.len()
        invariant
            i <= content@.len(),
            pick == (|item: MessageContent| text_part(item)),
            parts@.map_values(|part: String| part@) == text_parts(content@.take(i as int)),
        decreases content@.len() - i,
    {
        let ghost before = parts@;
        match &content[i] {
            MessageContent::Text(text) => {
                if !text.as_str().is_empty() {
                    parts.push(text.clone());
                }
            },
            MessageContent::Thinking { text } => {
                if !text.as_str().is_empty() {
                    parts.push(text.clone());
                }
            },
            MessageContent::RedactedThinking(_) => {},
            MessageContent::Image => {},
            MessageContent::ToolUse(_) => {},
            MessageContent::ToolResult(_) => {},
        }
        proof {
            content@.lemma_filter_map_take_succ(pick, i as int);
            let views = |part: String| part@;
            assert(text_part(content@[i as int]) is Some ==> parts@.map_values(views)
                =~= before.map_values(views) + seq![text_part(content@[i as int])->0]);
        }
        i += 1;
    }
    assert(content@.take(i as int) == content@);
    parts
}

/// The messages that are sent for `messages`.
fn collect_messages(messages: &Vec<LanguageModelRequestMessage>) -> (r: Vec<ZAiMessage>)
    ensures
        says_all(r@, sent_messages(messages@)),
{
    let ghost pick = |message: LanguageModelRequestMessage| sent_message(message);
    let mut sent: Vec<ZAiMessage> = Vec::new();
    let mut i: usize = 0;
    while i < messages.len()
        invariant
            i <= messages@.len(),
            pick == (|message: LanguageModelRequestMessage| sent_message(message)),
            says_all(sent@, sent_messages(messages@.take(i as int))),
        decreases messages@.len() - i,
    {
        proof {
            messages@.lemma_filter_map_take_succ(pick, i as int);
        }
        let message = &messages[i];
        i += 1;
        if message.contents_empty {
            continue;
        }
        let role = match message.role {
            Role::User => ZAiRole::User,
            Role::Assistant => ZAiRole::Assistant,
            Role::System => ZAiRole::System,
        };
        let parts = collect_text_parts(&message.content);
        let text = join(&parts, " ");
        if !text.as_str().is_empty() {
            sent.push(ZAiMessage { role, content: ZAiContent::Text(text) });
        }
    }
    assert(messages@.take(i as int) == messages@);
    sent
}

/// Describes the tools `requested` to the service.
fn collect_tools(requested: Vec<LanguageModelRequestTool>) -> (r: Vec<ZAiTool>)
    ensures
        describes_all(r@, requested@),
{
    let mut tools: Vec<ZAiTool> = Vec::new();
    for tool in it: requested
        invariant
            it.seq() == requested@,
            describes_all(tools@, requested@.take(it.index())),
    {
        tools.push(
            ZAiTool {
                kind: "function".to_string(),
                function: ZAiFunction {
                    name: tool.name,
                    description: tool.description,
                    parameters: tool.input_schema,
                },
            },
        );
    }
    assert(requested@.take(requested@.len() as int) == requested@);
    tools
}

/// The request to the service that asks the model `model_id` for what `request`
/// asks. Messages go as text: images, tool calls and tool results are left out,
/// and so is a message in which nothing remains.
pub fn into_z_ai(request: LanguageModelRequest, model_id: &str, thinking_enabled: bool) -> (r:
    ZAiRequest)
    ensures
        r.model@ == model_id@,
        says_all(r.messages@, sent_messages(request.messages@)),
        r.thinking == (if thinking_enabled {
            Some(ChatThinking { kind: ChatThinkingType::Enabled })
        } else {
            None
        }),
        r.temperature.bits == (match request.temperature {
            Some(temperature) => temperature.bits,
            None => DEFAULT_TEMPERATURE_BITS,
        }),
        r.max_tokens is None,
        r.stream,
        describes_all(r.tools@, request.tools@),
        r.tool_choice == tool_choice_of(request.tool_choice),
        r.stop == request.stop,
{
    let messages = collect_messages(&request.messages);
    let tools = collect_tools(request.tools);
    let tool_choice = match request.tool_choice {
        Some(LanguageModelToolChoice::Auto) => Some(ZAiToolChoice::Auto),
        Some(LanguageModelToolChoice::Never) => Some(ZAiToolChoice::Never),
        Some(LanguageModelToolChoice::Other) => Some(ZAiToolChoice::Auto),
        None => None,
    };
    ZAiRequest {
        model: model_id.to_string(),
        messages,
        thinking: if thinking_enabled {
            Some(ChatThinking { kind: ChatThinkingType::Enabled })
        } else {
            None
        },
        temperature: match request.temperature {
            Some(temperature) => temperature,
            None => default_temperature(),
        },
        max_tokens: None,
        stream: true,
        tools,
        tool_choice,
        stop: request.stop,
    }
}

} // verus!
