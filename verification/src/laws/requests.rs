//! Laws of what is asked of the service.
use super::text::{law_base_and_suffix, law_byte_lengths, law_joined_in_two_parts};
use crate::chat::{LanguageModelRequest, LanguageModelRequestMessage, MessageContent, Role};
use crate::completion::{completions_uri, exchange_failure, Exchange};
use crate::configuration::{panel, PanelModel, ZAiConfigurationView};
use crate::estimate::{content_len, messages_len};
use crate::json::json_text;
use crate::model::model_supports_thinking;
use crate::provider::{ZAiLanguageModel, THINKING_SUFFIX};
use crate::request::{
    into_z_ai, message_text, role_of, sent_message, sent_messages, text_part, text_parts,
};
use crate::text::{joined, without_end_slashes};
use crate::wire::{ZAiContent, ZAiRequest, ZAiRole};
use vstd::prelude::*;
use vstd::utf8::encode_utf8;

verus! {

proof fn lemma_filter_map_sum<A, B>(first: Seq<A>, second: Seq<A>, f: spec_fn(A) -> Option<B>)
    ensures
        (first + second).filter_map(f) == first.filter_map(f) + second.filter_map(f),
    decreases second.len(),
{
    if second.len() == 0 {
        assert(first + second == first);
        assert(first.filter_map(f) + second.filter_map(f) == first.filter_map(f));
    } else {
        let shorter = second.drop_last();
        assert((first + second).drop_last() == first + shorter);
        lemma_filter_map_sum(first, shorter, f);
        match f(second.last()) {
            Some(b) => {
                assert(first.filter_map(f) + shorter.filter_map(f) + seq![b] =~= first.filter_map(f)
                    + (shorter.filter_map(f) + seq![b]));
            },
            None => {},
        }
    }
}

/// Messages are sent in the order in which they stand, each for itself.
pub proof fn law_messages_in_two_parts(
    first: Seq<LanguageModelRequestMessage>,
    second: Seq<LanguageModelRequestMessage>,
)
    ensures
        sent_messages(first + second) == sent_messages(first) + sent_messages(second),
{
    lemma_filter_map_sum(
        first,
        second,
        |message: LanguageModelRequestMessage| sent_message(message),
    );
}

/// The items of `content` that have words in them.
pub open spec fn worded(content: Seq<MessageContent>) -> Seq<MessageContent> {
    content.filter(|item: MessageContent| text_part(item) is Some)
}

/// Items without words do not matter to what a message says.
pub proof fn law_items_without_words_do_not_matter(content: Seq<MessageContent>)
    ensures
        text_parts(worded(content)) == text_parts(content),
        message_text(worded(content)) == message_text(content),
    decreases content.len(),
{
    reveal(Seq::filter);
    if content.len() > 0 {
        let shorter = content.drop_last();
        law_items_without_words_do_not_matter(shorter);
        if text_part(content.last()) is Some {
            assert(worded(content) == worded(shorter).push(content.last()));
            assert(worded(content).drop_last() == worded(shorter));
        }
    }
}

proof fn lemma_text_parts_have_words(content: Seq<MessageContent>)
    ensures
        forall|i: int| 0 <= i < text_parts(content).len() ==> (#[trigger] text_parts(content)[i]).len() > 0,
        text_parts(content).len() == 0 <==> (forall|i: int|
            0 <= i < content.len() ==> text_part(#[trigger] content[i]) is None),
    decreases content.len(),
{
    if content.len() > 0 {
        let shorter = content.drop_last();
        lemma_text_parts_have_words(shorter);
        if text_part(content.last()) is None {
            if text_parts(shorter).len() == 0 {
                assert forall|i: int| 0 <= i < content.len() implies text_part(
                    #[trigger] content[i],
                ) is None by {
                    if i < shorter.len() {
                        assert(shorter[i] == content[i]);
                    }
                }
            } else {
                let i = choose|i: int|
                    0 <= i < shorter.len() && text_part(#[trigger] shorter[i]) is Some;
                assert(content[i] == shorter[i]);
            }
        } else {
            assert(text_part(content[content.len() - 1]) is Some);
        }
    }
}

proof fn lemma_joined_has_words(parts: Seq<Seq<char>>, separator: Seq<char>)
    requires
        forall|i: int| 0 <= i < parts.len() ==> (#[trigger] parts[i]).len() > 0,
    ensures
        joined(parts, separator).len() == 0 <==> parts.len() == 0,
{
    if parts.len() > 0 {
        assert(parts[parts.len() - 1].len() > 0);
        assert(parts[0].len() > 0);
    }
}

/// A message is sent exactly if the host does not count it as empty and some
/// item of it has words, and it is sent under its own role.
pub proof fn law_messages_with_words_are_sent(message: LanguageModelRequestMessage)
    ensures
        sent_message(message) is Some <==> !message.contents_empty && exists|i: int|
            0 <= i < message.content@.len() && text_part(#[trigger] message.content@[i]) is Some,
        sent_message(message) matches Some(sent) ==> sent.role == role_of(message.role)
            && sent.text.len() > 0,
{
    let content = message.content@;
    lemma_text_parts_have_words(content);
    lemma_joined_has_words(text_parts(content), " "@);
}

/// What is sent never holds an empty message, nor one in the name of a tool.
pub proof fn law_sent_messages_have_words(messages: Seq<LanguageModelRequestMessage>, i: int)
    requires
        0 <= i < sent_messages(messages).len(),
    ensures
        sent_messages(messages)[i].text.len() > 0,
        sent_messages(messages)[i].role != ZAiRole::Tool,
        sent_messages(messages).len() <= messages.len(),
    decreases messages.len(),
{
    if messages.len() > 0 {
        let shorter = messages.drop_last();
        if i < sent_messages(shorter).len() {
            law_sent_messages_have_words(shorter, i);
        } else {
            if sent_messages(shorter).len() > 0 {
                law_sent_messages_have_words(shorter, 0);
            }
        }
    }
}

/// Two roles of the host never become one.
pub proof fn law_roles_stay_apart(first: Role, second: Role)
    ensures
        role_of(first) == role_of(second) ==> first == second,
{
}

/// A slash at the end of the service's address does not matter.
pub proof fn law_end_slash_does_not_matter(api_url: Seq<char>)
    ensures
        completions_uri(api_url.push('/')) == completions_uri(api_url),
{
    assert(api_url.push('/').drop_last() == api_url);
}

proof fn lemma_no_end_slash(s: Seq<char>)
    ensures
        without_end_slashes(s).len() == 0 || without_end_slashes(s).last() != '/',
    decreases s.len(),
{
    if s.len() > 0 && s.last() == '/' {
        lemma_no_end_slash(s.drop_last());
    }
}

/// What precedes the path of a completion's address does not end with a slash.
pub proof fn law_no_double_slash(api_url: Seq<char>)
    ensures
        without_end_slashes(api_url).len() > 0 ==> without_end_slashes(api_url).last() != '/',
{
    lemma_no_end_slash(api_url);
}

/// An answer is streamed exactly if the service has accepted the request.
pub proof fn law_only_accepted_is_streamed(exchange: Exchange)
    ensures
        exchange_failure(exchange) is None <==> exchange is Accepted,
{
}

/// The lengths of messages add up.
pub proof fn law_lengths_add_up(
    first: Seq<LanguageModelRequestMessage>,
    second: Seq<LanguageModelRequestMessage>,
)
    ensures
        messages_len(first + second) == messages_len(first) + messages_len(second),
    decreases second.len(),
{
    if second.len() == 0 {
        assert(first + second == first);
    } else {
        assert((first + second).drop_last() == first + second.drop_last());
        law_lengths_add_up(first, second.drop_last());
    }
}

/// A key can be removed whenever the page shows that there is one, and a key
/// from the environment is never shown so.
pub proof fn law_shown_key_can_be_removed(view: ZAiConfigurationView)
    ensures
        panel(view) matches PanelModel::Configured { removable, .. } ==> removable
            && view.state.has_key && !view.state.is_from_env_var,
{
}

proof fn lemma_words_and_parts(content: Seq<MessageContent>)
    ensures
        message_text(content).len() == 0 <==> text_parts(content).len() == 0,
{
    lemma_text_parts_have_words(content);
    lemma_joined_has_words(text_parts(content), " "@);
}

/// Every word of a message is sent, in order: what two parts of it say, each
/// with some words, is sent with one space between them, and a part without
/// words changes nothing.
pub proof fn law_every_word_is_sent(first: Seq<MessageContent>, second: Seq<MessageContent>)
    ensures
        message_text(first).len() > 0 && message_text(second).len() > 0 ==> message_text(
            first + second,
        ) == message_text(first) + " "@ + message_text(second),
        message_text(first).len() == 0 ==> message_text(first + second) == message_text(second),
        message_text(second).len() == 0 ==> message_text(first + second) == message_text(first),
{
    let a = text_parts(first);
    let b = text_parts(second);
    lemma_filter_map_sum(first, second, |item: MessageContent| text_part(item));
    assert(text_parts(first + second) == a + b);
    lemma_words_and_parts(first);
    lemma_words_and_parts(second);
    if a.len() > 0 && b.len() > 0 {
        law_joined_in_two_parts(a, b, Seq::empty(), " "@);
    } else if a.len() == 0 {
        assert(a + b == b);
    } else {
        assert(a + b == a);
    }
}

/// One item alone is sent as its own words if it is text or thinking, and adds
/// nothing otherwise.
pub proof fn law_words_of_one_item(item: MessageContent)
    ensures
        message_text(Seq::empty()).len() == 0,
        item matches MessageContent::Text(text) ==> message_text(seq![item]) == text@,
        item matches MessageContent::Thinking { text } ==> message_text(seq![item]) == text@,
        !(item is Text) && !(item is Thinking) ==> message_text(seq![item]).len() == 0,
{
    let one = seq![item];
    let none = Seq::<MessageContent>::empty();
    assert(one.drop_last() == none);
    assert(one.last() == item);
    assert(text_parts(none) == Seq::<Seq<char>>::empty());
    match text_part(item) {
        Some(words) => {
            assert(text_parts(one) =~= seq![words]);
        },
        None => {
            assert(text_parts(one) =~= Seq::<Seq<char>>::empty());
        },
    }
    match item {
        MessageContent::Text(text) => {
            if text@.len() == 0 {
                assert(text@ == Seq::<char>::empty());
            }
        },
        MessageContent::Thinking { text } => {
            if text@.len() == 0 {
                assert(text@ == Seq::<char>::empty());
            }
        },
        _ => {},
    }
}

/// One message more is sent after the others, under its own role and with all
/// its words, unless it has none or the host counts it as empty.
pub proof fn law_message_is_sent(
    messages: Seq<LanguageModelRequestMessage>,
    message: LanguageModelRequestMessage,
)
    ensures
        sent_messages(Seq::empty()).len() == 0,
        ({
            let before = sent_messages(messages);
            let after = sent_messages(messages.push(message));
            let words = message_text(message.content@);
            &&& message.contents_empty || words.len() == 0 ==> after == before
            &&& !message.contents_empty && words.len() > 0 ==> {
                &&& after.len() == before.len() + 1
                &&& after.drop_last() == before
                &&& after.last().text == words
                &&& message.role is User ==> after.last().role is User
                &&& message.role is Assistant ==> after.last().role is Assistant
                &&& message.role is System ==> after.last().role is System
            }
        }),
{
    let longer = messages.push(message);
    assert(longer.drop_last() == messages);
    assert(longer.last() == message);
    assert(sent_messages(Seq::empty()).len() == 0);
    if sent_message(message) is Some {
        assert(sent_messages(longer) == sent_messages(messages) + seq![sent_message(message)->0]);
        assert(sent_messages(longer).drop_last() == sent_messages(messages));
    }
}

/// A request to the service holds all that the host asks: the messages that are
/// sent, as text; every tool, in order and with nothing left out; the choice
/// among tools; the temperature, or one; and the words to stop at.
pub proof fn law_request_holds_what_is_asked(
    request: LanguageModelRequest,
    model_id: &str,
    thinking_enabled: bool,
    r: ZAiRequest,
    i: int,
)
    requires
        call_ensures(into_z_ai, (request, model_id, thinking_enabled), r),
    ensures
        r.model@ == model_id@,
        r.messages@.len() == sent_messages(request.messages@).len(),
        0 <= i < r.messages@.len() ==> {
            &&& r.messages@[i].role == sent_messages(request.messages@)[i].role
            &&& r.messages@[i].content matches ZAiContent::Text(text)
            &&& text@ == sent_messages(request.messages@)[i].text
        },
        r.tools@.len() == request.tools@.len(),
        0 <= i < r.tools@.len() ==> {
            &&& r.tools@[i].kind@ == "function"@
            &&& r.tools@[i].function.name@ == request.tools@[i].name@
            &&& r.tools@[i].function.description@ == request.tools@[i].description@
            &&& r.tools@[i].function.parameters == request.tools@[i].input_schema
        },
        r.tool_choice is Some == request.tool_choice is Some,
        r.tool_choice is Some ==> (r.tool_choice->0 is Never <==> request.tool_choice->0 is Never),
        request.temperature matches Some(temperature) ==> r.temperature == temperature,
        request.temperature is None ==> r.temperature.bits == 0x3f80_0000,
        r.stop@ == request.stop@,
        r.thinking is Some == thinking_enabled,
        r.thinking is Some ==> r.thinking->0.kind is Enabled,
        r.max_tokens is None,
        r.stream,
{
}

/// What a model that is offered asks of the service is what the request asks,
/// of the model that the offer is for.
pub proof fn law_offer_asks_the_same(
    offer: &ZAiLanguageModel,
    request: LanguageModelRequest,
    asked: ZAiRequest,
    model_id: &str,
    direct: ZAiRequest,
    i: int,
)
    requires
        call_ensures(ZAiLanguageModel::service_request, (offer, request), asked),
        call_ensures(into_z_ai, (request, model_id, asked.thinking is Some), direct),
        offer.id@ == model_id@ || offer.id@ == model_id@ + "-thinking"@,
        !THINKING_SUFFIX@.is_suffix_of(model_id@),
    ensures
        asked.model@ == model_id@,
        asked.thinking is Some <==> request.thinking_allowed && (offer.id@ == model_id@
            + "-thinking"@ || model_supports_thinking(offer.model)),
        asked.thinking == direct.thinking,
        asked.messages@.len() == direct.messages@.len(),
        0 <= i < asked.messages@.len() ==> {
            &&& asked.messages@[i].role == direct.messages@[i].role
            &&& asked.messages@[i].content->Text_0@ == direct.messages@[i].content->Text_0@
        },
        asked.tools@.len() == direct.tools@.len(),
        0 <= i < asked.tools@.len() ==> {
            &&& asked.tools@[i].kind@ == direct.tools@[i].kind@
            &&& asked.tools@[i].function == direct.tools@[i].function
        },
        asked.temperature == direct.temperature,
        asked.tool_choice == direct.tool_choice,
        asked.stop == direct.stop,
        asked.max_tokens == direct.max_tokens,
        asked.stream == direct.stream,
{
    law_base_and_suffix(offer.id@, model_id@, THINKING_SUFFIX@);
    if offer.id@ == model_id@ + "-thinking"@ && offer.id@ == model_id@ {
        reveal_strlit("-thinking");
        assert((model_id@ + "-thinking"@).len() == model_id@.len() + "-thinking"@.len());
    }
}

proof fn lemma_content_len_sum(first: Seq<MessageContent>, second: Seq<MessageContent>)
    ensures
        content_len(first + second) == content_len(first) + content_len(second),
    decreases second.len(),
{
    if second.len() == 0 {
        assert(first + second == first);
    } else {
        assert((first + second).drop_last() == first + second.drop_last());
        lemma_content_len_sum(first, second.drop_last());
    }
}

/// The lengths of the items of a message add up to its own, and those of
/// messages to that of all of them.
pub proof fn law_items_add_up(
    messages: Seq<LanguageModelRequestMessage>,
    message: LanguageModelRequestMessage,
    first: Seq<MessageContent>,
    second: Seq<MessageContent>,
)
    requires
        message.content@ == first + second,
    ensures
        content_len(Seq::empty()) == 0,
        messages_len(Seq::empty()) == 0,
        messages_len(messages.push(message)) == messages_len(messages) + content_len(first)
            + content_len(second),
{
    lemma_content_len_sum(first, second);
    assert(messages.push(message).drop_last() == messages);
    assert(messages.push(message).last() == message);
}

/// An item alone counts for all its bytes: text, thinking and hidden thinking
/// for those of its UTF-8 encoding, however long, a tool call for its name and
/// its input as JSON, a tool result for what it shows. An image counts for 1000.
pub proof fn law_item_counts_in_full(item: MessageContent)
    ensures
        item matches MessageContent::Text(text) ==> content_len(seq![item]) == encode_utf8(
            text@,
        ).len(),
        item matches MessageContent::Thinking { text } ==> content_len(seq![item]) == encode_utf8(
            text@,
        ).len(),
        item matches MessageContent::RedactedThinking(data) ==> content_len(seq![item])
            == encode_utf8(data@).len(),
        item matches MessageContent::ToolUse(call) ==> content_len(seq![item]) == encode_utf8(
            call.name@,
        ).len() + encode_utf8(json_text(call.input)).len(),
        item matches MessageContent::ToolResult(result) ==> content_len(seq![item])
            == result.debug_len,
        item is Image ==> content_len(seq![item]) == 1000,
{
    assert(seq![item].drop_last() == Seq::<MessageContent>::empty());
    assert(seq![item].last() == item);
    assert(content_len(Seq::empty()) == 0);
}

/// A text cut in two counts for as much as its two parts.
pub proof fn law_text_counts_in_two_parts(whole: String, first: String, second: String)
    requires
        whole@ == first@ + second@,
    ensures
        content_len(seq![MessageContent::Text(whole)]) == content_len(
            seq![MessageContent::Text(first)],
        ) + content_len(seq![MessageContent::Text(second)]),
        content_len(seq![MessageContent::Thinking { text: whole }]) == content_len(
            seq![MessageContent::Thinking { text: first }],
        ) + content_len(seq![MessageContent::Thinking { text: second }]),
{
    law_byte_lengths(first@, second@);
    law_item_counts_in_full(MessageContent::Text(whole));
    law_item_counts_in_full(MessageContent::Text(first));
    law_item_counts_in_full(MessageContent::Text(second));
    law_item_counts_in_full(MessageContent::Thinking { text: whole });
    law_item_counts_in_full(MessageContent::Thinking { text: first });
    law_item_counts_in_full(MessageContent::Thinking { text: second });
}

/// Four bytes are one token: the estimate is the length of all messages, of
/// which each four bytes count one. It is given exactly if that length fits, and
/// both ways to ask for it agree.
pub proof fn law_four_bytes_are_a_token(
    model: &ZAiLanguageModel,
    request: &LanguageModelRequest,
    tried: Option<u64>,
    counted: u64,
)
    requires
        call_ensures(ZAiLanguageModel::try_count_tokens, (model, request), tried),
        call_ensures(ZAiLanguageModel::count_tokens, (model, request), counted),
    ensures
        tried is Some <==> messages_len(request.messages@) <= usize::MAX,
        tried matches Some(tokens) ==> 4 * tokens <= messages_len(request.messages@) < 4 * tokens
            + 4,
        4 * counted <= messages_len(request.messages@) < 4 * counted + 4,
{
}

} // verus!
