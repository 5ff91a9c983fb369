//! A rough count of the tokens of a request.
use crate::chat::{LanguageModelRequest, LanguageModelRequestMessage, MessageContent};
use crate::json::{json_text, value_text};
use crate::provider::ZAiLanguageModel;
use crate::text::{byte_len, utf8_len};
use vstd::prelude::*;

verus! {

/// The length that an image counts for.
pub const IMAGE_LEN: usize = 1000;

/// The length that counts for one token.
pub const LEN_PER_TOKEN: usize = 4;

/// The length of `item`, in bytes.
pub open spec fn item_len(item: MessageContent) -> nat {
    match item {
        MessageContent::Text(text) => utf8_len(text@),
        MessageContent::Thinking { text } => utf8_len(text@),
        MessageContent::RedactedThinking(data) => utf8_len(data@),
        MessageContent::Image => IMAGE_LEN as nat,
        MessageContent::ToolUse(tool_use) => utf8_len(tool_use.name@) + utf8_len(
            json_text(tool_use.input),
        ),
        MessageContent::ToolResult(tool_result) => tool_result.debug_len as nat,
    }
}

/// The length of all of `content`.
pub open spec fn content_len(content: Seq<MessageContent>) -> nat
    decreases content.len(),
{
    if content.len() == 0 {
        0
    } else {
        content_len(content.drop_last()) + item_len(content.last())
    }
}

/// The length of all of `messages`.
pub open spec fn messages_len(messages: Seq<LanguageModelRequestMessage>) -> nat
    decreases messages.len(),
{
    if messages.len() == 0 {
        0
    } else {
        messages_len(messages.drop_last()) + content_len(messages.last().content@)
    }
}

proof fn lemma_content_len_grows(content: Seq<MessageContent>, i: int)
    requires
        0 <= i <= content.len(),
    ensures
        content_len(content.take(i)) <= content_len(content),
    decreases content.len() - i,
{
    if i < content.len() {
        assert(content.take(i + 1).drop_last() == content.take(i));
        lemma_content_len_grows(content, i + 1);
    } else {
        assert(content.take(i) == content);
    }
}

proof fn lemma_messages_len_grows(messages: Seq<LanguageModelRequestMessage>, i: int)
    requires
        0 <= i <= messages.len(),
    ensures
        messages_len(messages.take(i)) <= messages_len(messages),
    decreases messages.len() - i,
{
    if i < messages.len() {
        assert(messages.take(i + 1).drop_last() == messages.take(i));
        lemma_messages_len_grows(messages, i + 1);
    } else {
        assert(messages.take(i) == messages);
    }
}

/// The sum of two lengths, if both are there and it fits.
fn sum(first: usize, second: Option<usize>) -> (r: Option<usize>)
    ensures
        match r {
            Some(total) => second is Some && total == first + second->0,
            None => second is None || first + second->0 > usize::MAX,
        },
{
    match second {
        Some(second) => first.checked_add(second),
        None => None,
    }
}

/// The length of `item`, if it fits.
fn measure_item(item: &MessageContent) -> (r: Option<usize>)
    ensures
        match r {
            Some(len) => len == item_len(*item),
            None => item_len(*item) > usize::MAX,
        },
{
    match item {
        MessageContent::Text(text) => Some(byte_len(text.as_str())),
        MessageContent::Thinking { text } => Some(byte_len(text.as_str())),
        MessageContent::RedactedThinking(data) => Some(byte_len(data.as_str())),
        MessageContent::Image => Some(IMAGE_LEN),
        MessageContent::ToolUse(tool_use) => {
            let input = value_text(&tool_use.input);
            byte_len(tool_use.name.as_str()).checked_add(byte_len(input.as_str()))
        },
        MessageContent::ToolResult(tool_result) => Some(tool_result.debug_len),
    }
}

/// The length of all of `content`, if it fits.
fn measure_content(content: &Vec<MessageContent>) -> (r: Option<usize>)
    ensures
        match r {
            Some(len) => len == content_len(content@),
            None => content_len(content@) > usize::MAX,
        },
{
    let mut total: usize = 0;
    let mut i: usize = 0;
    while i < content.len()
        invariant
            i <= content@.len(),
            total == content_len(content@.take(i as int)),
        decreases content@.len() - i,
    {
        proof {
            assert(content@.take(i + 1).drop_last() == content@.take(i as int));
            lemma_content_len_grows(content@, i + 1);
        }
        match sum(total, measure_item(&content[i])) {
            Some(more) => {
                total = more;
            },
            None => {
                return None;
            },
        }
        i += 1;
    }
    assert(content@.take(i as int) == content@);
    Some(total)
}

/// The length of all messages of `request`, if it fits.
fn measure(request: &LanguageModelRequest) -> (r: Option<usize>)
    ensures
        match r {
            Some(len) => len == messages_len(request.messages@),
            None => messages_len(request.messages@) > usize::MAX,
        },
{
    let ghost messages = request.messages@;
    let mut total: usize = 0;
    let mut i: usize = 0;
    while i < request.messages.len()
        invariant
            i <= messages.len(),
            messages == request.messages@,
            total == messages_len(messages.take(i as int)),
        decreases messages.len() - i,
    {
        proof {
            assert(messages.take(i + 1).drop_last() == messages.take(i as int));
            lemma_messages_len_grows(messages, i + 1);
        }
        match sum(total, measure_content(&request.messages[i].content)) {
            Some(more) => {
                total = more;
            },
            None => {
                return None;
            },
        }
        i += 1;
    }
    assert(messages.take(i as int) == messages);
    Some(total)
}

impl ZAiLanguageModel {
    /// An estimate of the tokens that `request` takes, from its length alone.
    pub fn count_tokens(&self, request: &LanguageModelRequest) -> (r: u64)
        requires
            messages_len(request.messages@) <= usize::MAX,
        ensures
            r == messages_len(request.messages@) / LEN_PER_TOKEN as nat,
    {
        match measure(request) {
            Some(total) => (total / LEN_PER_TOKEN) as u64,
            None => 0,
        }
    }

    /// An estimate of the tokens that `request` takes, unless its length is more
    /// than a `usize` holds.
    pub fn try_count_tokens(&self, request: &LanguageModelRequest) -> (r: Option<u64>)
        ensures
            match r {
                Some(tokens) => {
                    &&& messages_len(request.messages@) <= usize::MAX
                    &&& tokens == messages_len(request.messages@) / LEN_PER_TOKEN as nat
                },
                None => messages_len(request.messages@) > usize::MAX,
            },
    {
        match measure(request) {
            Some(_) => Some(self.count_tokens(request)),
            None => None,
        }
    }
}

} // verus!
