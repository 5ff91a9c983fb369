//! Laws of what a response in one piece gives, over the fields of the response.
use super::chunks::{law_told_in_two_parts, lemma_no_words_told, text_told, thinking_told};
use crate::chat::{
    outcome, outcomes, CompletionResult, ErrorModel, EventModel, LanguageModelCompletionError,
    LanguageModelCompletionEvent, OutcomeModel, StopReason, TokenUsage, ToolInput, ToolInputModel,
};
use crate::json::{json_str, json_text};
use crate::mapper::{
    choice_events, choices_events, parsed_response_events, response_events, ZAiEventMapper,
};
use crate::wire::{ZAiChoice, ZAiResponse};
use vstd::prelude::*;

verus! {

/// One choice more adds to what the others say: its thinking if it has any, then
/// its text if it has any, each with every character, and then each of its tool
/// calls, in order. The arguments of a call are the characters of a JSON string,
/// or else the JSON text.
pub proof fn law_choice_of_response_is_told(choices: Seq<ZAiChoice>, choice: ZAiChoice)
    ensures
        choices_events(Seq::empty()) == Seq::<OutcomeModel>::empty(),
        ({
            let before = choices_events(choices);
            let after = choices_events(choices.push(choice));
            let message = choice.message;
            let thinks = message.reasoning_content is Some
                && message.reasoning_content->0@.len() > 0;
            let speaks = message.content@.len() > 0;
            let thoughts: int = if thinks { 1 } else { 0 };
            let words: int = if speaks { 1 } else { 0 };
            let calls: int = if message.tool_calls is Some {
                message.tool_calls->0@.len() as int
            } else {
                0
            };
            let first = before.len() + thoughts + words;
            &&& after.len() == first + calls
            &&& after.take(before.len() as int) == before
            &&& thinks ==> after[before.len() as int] == OutcomeModel::Ok(
                EventModel::Thinking { text: message.reasoning_content->0@, signature: None },
            )
            &&& speaks ==> after[before.len() + thoughts] == OutcomeModel::Ok(
                EventModel::Text(message.content@),
            )
            &&& forall|i: int|
                0 <= i < calls ==> {
                    let call = #[trigger] choice.message.tool_calls->0@[i];
                    &&& after[first + i] matches Ok(EventModel::ToolUse(told))
                    &&& told.id == call.id@
                    &&& told.name == call.function.name@
                    &&& json_str(call.function.arguments) matches Some(text) ==> told.raw_input
                        == text
                    &&& json_str(call.function.arguments) is None ==> told.raw_input == json_text(
                        call.function.arguments,
                    )
                    &&& told.input == ToolInputModel::Text(told.raw_input)
                    &&& told.is_input_complete
                }
        }),
{
    let f = |choice: ZAiChoice| choice_events(choice);
    choices.lemma_flat_map_push(f, choice);
    assert(choices_events(Seq::empty()) =~= Seq::<OutcomeModel>::empty());
    let before = choices_events(choices);
    let after = choices_events(choices.push(choice));
    assert(after == before + choice_events(choice));
    assert(after.take(before.len() as int) == before);
}

/// What a response gives is what its choices say, then one stop for the first
/// choice if there is one, then the tokens used if it tells them.
pub proof fn law_response_gives(response: ZAiResponse)
    ensures
        ({
            let choices = response.choices@;
            let said = choices_events(choices);
            let events = response_events(response);
            let stops: int = if choices.len() > 0 { 1 } else { 0 };
            let used: int = if response.usage is Some { 1 } else { 0 };
            &&& events.len() == said.len() + stops + used
            &&& events.take(said.len() as int) == said
            &&& choices.len() > 0 ==> {
                let stop = events[said.len() as int];
                let reason = choices[0].finish_reason;
                &&& reason is Some && reason->0@ == "tool_calls"@ ==> stop == OutcomeModel::Ok(
                    EventModel::Stop(StopReason::ToolUse),
                )
                &&& reason is Some && reason->0@ == "length"@ ==> stop == OutcomeModel::Ok(
                    EventModel::Stop(StopReason::MaxTokens),
                )
                &&& reason is None || (reason->0@ != "tool_calls"@ && reason->0@ != "length"@)
                    ==> stop == OutcomeModel::Ok(EventModel::Stop(StopReason::EndTurn))
            }
            &&& response.usage matches Some(usage) ==> events.last() == OutcomeModel::Ok(
                EventModel::UsageUpdate(
                    TokenUsage {
                        input_tokens: usage.prompt_tokens,
                        output_tokens: usage.completion_tokens,
                        cache_creation_input_tokens: 0,
                        cache_read_input_tokens: 0,
                    },
                ),
            )
        }),
{
    reveal_strlit("tool_calls");
    reveal_strlit("length");
    assert("tool_calls"@.len() != "length"@.len());
}

/// The contents of `choices`, one after the other.
pub open spec fn text_given(choices: Seq<ZAiChoice>) -> Seq<char>
    decreases choices.len(),
{
    if choices.len() == 0 {
        Seq::empty()
    } else {
        text_given(choices.drop_last()) + choices.last().message.content@
    }
}

/// The reasoning contents of `choices`, one after the other.
pub open spec fn thinking_given(choices: Seq<ZAiChoice>) -> Seq<char>
    decreases choices.len(),
{
    if choices.len() == 0 {
        Seq::empty()
    } else if choices.last().message.reasoning_content is Some {
        thinking_given(choices.drop_last()) + choices.last().message.reasoning_content->0@
    } else {
        thinking_given(choices.drop_last())
    }
}

proof fn lemma_choices_tell_words(choices: Seq<ZAiChoice>)
    ensures
        text_told(choices_events(choices)) == text_given(choices),
        thinking_told(choices_events(choices)) == thinking_given(choices),
    decreases choices.len(),
{
    if choices.len() == 0 {
        assert(choices == Seq::<ZAiChoice>::empty());
        law_choice_of_response_is_told(choices, arbitrary());
    } else {
        let shorter = choices.drop_last();
        let choice = choices.last();
        let message = choice.message;
        assert(choices == shorter.push(choice));
        lemma_choices_tell_words(shorter);
        law_choice_of_response_is_told(shorter, choice);
        let before = choices_events(shorter);
        let after = choices_events(choices);
        let thinks = message.reasoning_content is Some && message.reasoning_content->0@.len() > 0;
        let speaks = message.content@.len() > 0;
        let thoughts: int = if thinks { 1 } else { 0 };
        let words: int = if speaks { 1 } else { 0 };
        let first = before.len() + thoughts + words;
        let said = after.subrange(before.len() as int, first);
        let calls = after.skip(first);
        assert(after == before + said + calls);
        assert forall|i: int| 0 <= i < calls.len() implies !((#[trigger] calls[i]) matches Ok(
            EventModel::Text(_),
        )) && !(calls[i] matches Ok(EventModel::Thinking { .. })) by {
            let call = choice.message.tool_calls->0@[i];
            assert(calls[i] == after[first + i]);
        }
        lemma_no_words_told(calls);
        law_told_in_two_parts(before, said);
        law_told_in_two_parts(before + said, calls);
        reveal_with_fuel(text_told, 3);
        reveal_with_fuel(thinking_told, 3);
        let none = Seq::<char>::empty();
        assert(none + message.content@ == message.content@);
        if !speaks {
            assert(message.content@ == none);
        }
        if message.reasoning_content is Some {
            assert(none + message.reasoning_content->0@ == message.reasoning_content->0@);
            if !thinks {
                assert(message.reasoning_content->0@ == none);
            }
        }
        assert(text_told(calls) == none);
        assert(thinking_told(calls) == none);
        assert(text_told(after) =~= text_given(choices));
        assert(thinking_told(after) =~= thinking_given(choices));
    }
}

/// The text that a response tells is exactly the contents of its choices one
/// after the other, every character kept, and so is its thinking.
pub proof fn law_every_character_of_response_is_told(response: ZAiResponse)
    ensures
        text_told(response_events(response)) == text_given(response.choices@),
        thinking_told(response_events(response)) == thinking_given(response.choices@),
{
    let said = choices_events(response.choices@);
    let events = response_events(response);
    let rest = events.skip(said.len() as int);
    law_response_gives(response);
    assert(events == said + rest);
    lemma_choices_tell_words(response.choices@);
    lemma_no_words_told(rest);
    law_told_in_two_parts(said, rest);
    assert(text_told(said) + text_told(rest) == text_told(said));
    assert(thinking_told(said) + thinking_told(rest) == thinking_told(said));
}

/// A response that was parsed gives its own events. One that was not gives one
/// failure, which names the provider and quotes the parser in full.
pub proof fn law_parse_failure_is_quoted(parsed: Result<ZAiResponse, String>)
    ensures
        parsed matches Ok(response) ==> parsed_response_events(parsed) == response_events(response),
        parsed matches Err(error) ==> parsed_response_events(parsed) == seq![
            OutcomeModel::Err(
                ErrorModel::CloudFailure {
                    provider: "Z.AI"@,
                    code: "parse_error"@,
                    message: "Failed to parse Z.AI response: "@ + error@,
                },
            ),
        ],
{
}

/// Mapping a response gives its events, whether by `map_response` or by
/// `process_response`, whatever calls are pending.
pub proof fn law_both_ways_to_map_agree(
    mapper: ZAiEventMapper,
    parsed: Result<ZAiResponse, String>,
    mapped: Vec<CompletionResult>,
    processed: Vec<CompletionResult>,
)
    requires
        call_ensures(ZAiEventMapper::map_response, (mapper, parsed), mapped),
        call_ensures(ZAiEventMapper::process_response, (&mapper, parsed), processed),
    ensures
        outcomes(mapped@) == outcomes(processed@),
        parsed matches Ok(response) ==> outcomes(mapped@) == response_events(response),
{
}

/// What an event or a failure is taken for is what its fields hold.
pub proof fn law_outcomes_are_their_fields(results: Seq<CompletionResult>, i: int)
    requires
        0 <= i < results.len(),
    ensures
        outcomes(results).len() == results.len(),
        outcomes(results)[i] == outcome(results[i]),
        results[i] matches Ok(LanguageModelCompletionEvent::Text(text)) ==> outcome(results[i])
            == OutcomeModel::Ok(EventModel::Text(text@)),
        results[i] matches Ok(LanguageModelCompletionEvent::Thinking { text, signature }) ==> {
            &&& outcome(results[i]) matches Ok(EventModel::Thinking { text: t, signature: s })
            &&& t == text@
            &&& s is Some == signature is Some
            &&& s is Some ==> s->0 == signature->0@
        },
        results[i] matches Ok(LanguageModelCompletionEvent::Stop(reason)) ==> outcome(results[i])
            == OutcomeModel::Ok(EventModel::Stop(reason)),
        results[i] matches Ok(LanguageModelCompletionEvent::UsageUpdate(usage)) ==> outcome(
            results[i],
        ) == OutcomeModel::Ok(EventModel::UsageUpdate(usage)),
        results[i] matches Ok(LanguageModelCompletionEvent::ToolUse(call)) ==> {
            &&& outcome(results[i]) matches Ok(EventModel::ToolUse(told))
            &&& told.id == call.id@
            &&& told.name == call.name@
            &&& told.raw_input == call.raw_input@
            &&& told.is_input_complete == call.is_input_complete
            &&& call.input is EmptyObject ==> told.input is EmptyObject
            &&& call.input matches ToolInput::Text(text) ==> told.input == ToolInputModel::Text(
                text@,
            )
            &&& call.input matches ToolInput::Parsed(value) ==> told.input
                == ToolInputModel::Parsed(json_text(value))
        },
        results[i] matches Err(LanguageModelCompletionError::NoApiKey { provider }) ==> outcome(
            results[i],
        ) == OutcomeModel::Err(ErrorModel::NoApiKey { provider: provider@ }),
        results[i] matches Err(
            LanguageModelCompletionError::CloudFailure { provider, code, message },
        ) ==> outcome(results[i]) == OutcomeModel::Err(
            ErrorModel::CloudFailure { provider: provider@, code: code@, message: message@ },
        ),
{
}

} // verus!
