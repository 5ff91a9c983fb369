//! Laws of what a chunk of a stream gives, over the fields of the chunk.
use crate::chat::{
    EventModel, LanguageModelCompletionError, OutcomeModel, StopReason, TokenUsage, ToolInputModel,
};
use crate::json::json_parsed;
use crate::mapper::{
    all_deltas, choice_deltas, element_step, event_of, pending_after, response_events,
    stream_choice_events, stream_choices_events, stream_run, stream_step, PendingCall,
    StreamEventModel, StreamItem,
};
use crate::text::trimmed;
use crate::wire::{ZAiStreamChoice, ZAiStreamResponse, ZAiToolCallDelta};
use vstd::prelude::*;

verus! {

/// One piece more of a tool call changes the call with its index and no other.
/// Arguments that it gives follow those held before, whatever else it says; an
/// id or a name that it gives takes the place of the one held before. What it
/// does not give stays.
pub proof fn law_piece_is_taken_in(
    pending: Map<usize, PendingCall>,
    deltas: Seq<ZAiToolCallDelta>,
    delta: ZAiToolCallDelta,
    other: usize,
)
    ensures
        pending_after(pending, Seq::empty()) == pending,
        ({
            let before = pending_after(pending, deltas);
            let after = pending_after(pending, deltas.push(delta));
            let held = before.contains_key(delta.index);
            let call = after[delta.index];
            &&& after.dom() == before.dom().insert(delta.index)
            &&& other != delta.index && before.contains_key(other) ==> after[other] == before[other]
            &&& delta.function is Some && delta.function->0.arguments is Some ==> {
                let more = delta.function->0.arguments->0@;
                &&& held ==> call.arguments == before[delta.index].arguments + more
                &&& !held ==> call.arguments == more
            }
            &&& delta.function is None || delta.function->0.arguments is None ==> {
                &&& held ==> call.arguments == before[delta.index].arguments
                &&& !held ==> call.arguments.len() == 0
            }
            &&& delta.id is Some ==> call.id == delta.id->0@
            &&& delta.id is None ==> {
                &&& held ==> call.id == before[delta.index].id
                &&& !held ==> call.id.len() == 0
            }
            &&& delta.function is Some && delta.function->0.name is Some ==> call.name
                == delta.function->0.name->0@
            &&& delta.function is None || delta.function->0.name is None ==> {
                &&& held ==> call.name == before[delta.index].name
                &&& !held ==> call.name.len() == 0
            }
        }),
{
    let longer = deltas.push(delta);
    assert(longer.drop_last() == deltas);
    assert(longer.last() == delta);
    let before = pending_after(pending, deltas);
    let after = pending_after(pending, longer);
    let none = Seq::<char>::empty();
    assert(after.dom() =~= before.dom().insert(delta.index));
    if delta.function is Some && delta.function->0.arguments is Some {
        assert(none + delta.function->0.arguments->0@ == delta.function->0.arguments->0@);
    } else if before.contains_key(delta.index) {
        assert(before[delta.index].arguments + none == before[delta.index].arguments);
    }
}

/// The pieces of tool calls in a chunk are all those of its choices, in order.
pub proof fn law_pieces_of_choices(choices: Seq<ZAiStreamChoice>, choice: ZAiStreamChoice)
    ensures
        all_deltas(Seq::empty()) == Seq::<ZAiToolCallDelta>::empty(),
        choice.delta.tool_calls matches Some(more) ==> all_deltas(choices.push(choice))
            == all_deltas(choices) + more@,
        choice.delta.tool_calls is None ==> all_deltas(choices.push(choice)) == all_deltas(choices),
{
    let f = |choice: ZAiStreamChoice| choice_deltas(choice);
    choices.lemma_flat_map_push(f, choice);
    assert(all_deltas(Seq::empty()) =~= Seq::<ZAiToolCallDelta>::empty());
    assert(all_deltas(choices) + Seq::<ZAiToolCallDelta>::empty() == all_deltas(choices));
}

/// One choice more adds to what the others say: its thinking if it has any, then
/// its text if it has any, each with every character, and then that it stopped
/// if it has finished.
pub proof fn law_choice_is_told(choices: Seq<ZAiStreamChoice>, choice: ZAiStreamChoice)
    ensures
        stream_choices_events(Seq::empty()) == Seq::<OutcomeModel>::empty(),
        ({
            let before = stream_choices_events(choices);
            let after = stream_choices_events(choices.push(choice));
            let thinks = choice.delta.reasoning_content is Some
                && choice.delta.reasoning_content->0@.len() > 0;
            let speaks = choice.delta.content is Some && choice.delta.content->0@.len() > 0;
            let stops = choice.finish_reason is Some;
            let thoughts: int = if thinks { 1 } else { 0 };
            let words: int = if speaks { 1 } else { 0 };
            let ends: int = if stops { 1 } else { 0 };
            &&& after.len() == before.len() + thoughts + words + ends
            &&& after.take(before.len() as int) == before
            &&& thinks ==> after[before.len() as int] == OutcomeModel::Ok(
                EventModel::Thinking {
                    text: choice.delta.reasoning_content->0@,
                    signature: None,
                },
            )
            &&& speaks ==> after[before.len() + thoughts] == OutcomeModel::Ok(
                EventModel::Text(choice.delta.content->0@),
            )
            &&& stops ==> {
                let reason = choice.finish_reason->0@;
                &&& reason == "tool_calls"@ ==> after.last() == OutcomeModel::Ok(
                    EventModel::Stop(StopReason::ToolUse),
                )
                &&& reason == "length"@ ==> after.last() == OutcomeModel::Ok(
                    EventModel::Stop(StopReason::MaxTokens),
                )
                &&& reason != "tool_calls"@ && reason != "length"@ ==> after.last()
                    == OutcomeModel::Ok(EventModel::Stop(StopReason::EndTurn))
            }
        }),
{
    let f = |choice: ZAiStreamChoice| stream_choice_events(choice);
    choices.lemma_flat_map_push(f, choice);
    assert(stream_choices_events(Seq::empty()) =~= Seq::<OutcomeModel>::empty());
    let before = stream_choices_events(choices);
    let after = stream_choices_events(choices.push(choice));
    assert(after == before + stream_choice_events(choice));
    assert(after.take(before.len() as int) == before);
    reveal_strlit("tool_calls");
    reveal_strlit("length");
    assert("tool_calls"@.len() != "length"@.len());
}

/// What a chunk gives is what its choices say, then the tool calls that it
/// completes, then the tokens used if it tells them. If a choice has finished,
/// these are all calls of which pieces have come, each of them once, with all
/// that came of it, and none is kept. Otherwise none is told and all are kept.
pub proof fn law_chunk_gives(
    before: Map<usize, PendingCall>,
    response: ZAiStreamResponse,
    after: Map<usize, PendingCall>,
    events: Seq<OutcomeModel>,
)
    requires
        stream_step(before, response, after, events),
    ensures
        ({
            let choices = response.choices@;
            let said = stream_choices_events(choices);
            let pending = pending_after(before, all_deltas(choices));
            let used: int = if response.usage is Some { 1 } else { 0 };
            let calls = events.subrange(said.len() as int, events.len() - used);
            &&& events.len() >= said.len() + used
            &&& events.take(said.len() as int) == said
            &&& response.usage matches Some(usage) ==> events.last() == OutcomeModel::Ok(
                EventModel::UsageUpdate(
                    TokenUsage {
                        input_tokens: usage.prompt_tokens,
                        output_tokens: usage.completion_tokens,
                        cache_creation_input_tokens: 0,
                        cache_read_input_tokens: 0,
                    },
                ),
            )
            &&& (forall|i: int|
                0 <= i < choices.len() ==> (#[trigger] choices[i]).finish_reason is None) ==> after
                == pending && calls.len() == 0
            &&& (exists|i: int|
                0 <= i < choices.len() && (#[trigger] choices[i]).finish_reason is Some) ==> {
                &&& after.dom() == Set::<usize>::empty()
                &&& exists|order: Seq<usize>|
                    {
                        &&& #[trigger] order.no_duplicates()
                        &&& order.len() == calls.len()
                        &&& forall|index: usize|
                            order.contains(index) <==> #[trigger] pending.contains_key(index)
                        &&& forall|k: int|
                            0 <= k < calls.len() ==> {
                                &&& (#[trigger] calls[k]) matches Ok(EventModel::ToolUse(told))
                                &&& told.id == pending[order[k]].id
                                &&& told.name == pending[order[k]].name
                                &&& told.raw_input == pending[order[k]].arguments
                                &&& told.is_input_complete
                                &&& told.raw_input.len() == 0 ==> told.input
                                    == ToolInputModel::EmptyObject
                                &&& told.raw_input.len() > 0 && json_parsed(told.raw_input) is Some
                                    ==> told.input == ToolInputModel::Parsed(
                                    json_parsed(told.raw_input)->0,
                                )
                                &&& told.raw_input.len() > 0 && json_parsed(told.raw_input) is None
                                    ==> told.input == ToolInputModel::Text(told.raw_input)
                            }
                    }
            }
        }),
{
}

/// All text that `events` tell, one piece after the other.
pub open spec fn text_told(events: Seq<OutcomeModel>) -> Seq<char>
    decreases events.len(),
{
    if events.len() == 0 {
        Seq::empty()
    } else {
        match events.last() {
            Ok(EventModel::Text(text)) => text_told(events.drop_last()) + text,
            _ => text_told(events.drop_last()),
        }
    }
}

/// All thinking that `events` tell, one piece after the other.
pub open spec fn thinking_told(events: Seq<OutcomeModel>) -> Seq<char>
    decreases events.len(),
{
    if events.len() == 0 {
        Seq::empty()
    } else {
        match events.last() {
            Ok(EventModel::Thinking { text, .. }) => thinking_told(events.drop_last()) + text,
            _ => thinking_told(events.drop_last()),
        }
    }
}

/// The contents of `choices`, one after the other.
pub open spec fn text_streamed(choices: Seq<ZAiStreamChoice>) -> Seq<char>
    decreases choices.len(),
{
    if choices.len() == 0 {
        Seq::empty()
    } else if choices.last().delta.content is Some {
        text_streamed(choices.drop_last()) + choices.last().delta.content->0@
    } else {
        text_streamed(choices.drop_last())
    }
}

/// The reasoning contents of `choices`, one after the other.
pub open spec fn thinking_streamed(choices: Seq<ZAiStreamChoice>) -> Seq<char>
    decreases choices.len(),
{
    if choices.len() == 0 {
        Seq::empty()
    } else if choices.last().delta.reasoning_content is Some {
        thinking_streamed(choices.drop_last()) + choices.last().delta.reasoning_content->0@
    } else {
        thinking_streamed(choices.drop_last())
    }
}

/// What two lists of events tell, they tell one after the other.
pub proof fn law_told_in_two_parts(first: Seq<OutcomeModel>, second: Seq<OutcomeModel>)
    ensures
        text_told(first + second) == text_told(first) + text_told(second),
        thinking_told(first + second) == thinking_told(first) + thinking_told(second),
    decreases second.len(),
{
    if second.len() == 0 {
        assert(first + second == first);
    } else {
        let shorter = second.drop_last();
        assert((first + second).drop_last() == first + shorter);
        law_told_in_two_parts(first, shorter);
    }
    assert(text_told(first + second) =~= text_told(first) + text_told(second));
    assert(thinking_told(first + second) =~= thinking_told(first) + thinking_told(second));
}

/// Events that tell neither text nor thinking tell none.
pub proof fn lemma_no_words_told(events: Seq<OutcomeModel>)
    requires
        forall|i: int|
            0 <= i < events.len() ==> !((#[trigger] events[i]) matches Ok(EventModel::Text(_)))
                && !(events[i] matches Ok(EventModel::Thinking { .. })),
    ensures
        text_told(events).len() == 0,
        thinking_told(events).len() == 0,
    decreases events.len(),
{
    if events.len() > 0 {
        let shorter = events.drop_last();
        assert forall|i: int| 0 <= i < shorter.len() implies !((#[trigger] shorter[i]) matches Ok(
            EventModel::Text(_),
        )) && !(shorter[i] matches Ok(EventModel::Thinking { .. })) by {
            assert(shorter[i] == events[i]);
        }
        lemma_no_words_told(shorter);
        assert(events[events.len() - 1] == events.last());
    }
}

proof fn lemma_choices_tell_words(choices: Seq<ZAiStreamChoice>)
    ensures
        text_told(stream_choices_events(choices)) == text_streamed(choices),
        thinking_told(stream_choices_events(choices)) == thinking_streamed(choices),
    decreases choices.len(),
{
    if choices.len() == 0 {
        assert(choices == Seq::<ZAiStreamChoice>::empty());
        law_choice_is_told(choices, arbitrary());
    } else {
        let shorter = choices.drop_last();
        let choice = choices.last();
        assert(choices == shorter.push(choice));
        lemma_choices_tell_words(shorter);
        law_choice_is_told(shorter, choice);
        let before = stream_choices_events(shorter);
        let after = stream_choices_events(choices);
        let more = after.skip(before.len() as int);
        assert(after == before + more);
        law_told_in_two_parts(before, more);
        reveal_with_fuel(text_told, 4);
        reveal_with_fuel(thinking_told, 4);
        let none = Seq::<char>::empty();
        if choice.delta.content is Some {
            assert(none + choice.delta.content->0@ == choice.delta.content->0@);
            if choice.delta.content->0@.len() == 0 {
                assert(choice.delta.content->0@ == none);
            }
        }
        if choice.delta.reasoning_content is Some {
            assert(none + choice.delta.reasoning_content->0@
                == choice.delta.reasoning_content->0@);
            if choice.delta.reasoning_content->0@.len() == 0 {
                assert(choice.delta.reasoning_content->0@ == none);
            }
        }
        assert(text_told(before) + none == text_told(before));
        assert(thinking_told(before) + none == thinking_told(before));
    }
}

/// The text that a chunk tells is exactly the contents of its choices one after
/// the other, every character kept, and so is its thinking. Nothing else stands
/// before the text of a chunk whose one choice only speaks.
pub proof fn law_every_character_is_told(
    before: Map<usize, PendingCall>,
    response: ZAiStreamResponse,
    after: Map<usize, PendingCall>,
    events: Seq<OutcomeModel>,
)
    requires
        stream_step(before, response, after, events),
    ensures
        text_told(events) == text_streamed(response.choices@),
        thinking_told(events) == thinking_streamed(response.choices@),
        response.choices@.len() == 1 && response.choices@[0].delta.content is Some
            && response.choices@[0].delta.content->0@.len() > 0
            && response.choices@[0].delta.reasoning_content is None ==> events.len() > 0
            && events[0] == OutcomeModel::Ok(
            EventModel::Text(response.choices@[0].delta.content->0@),
        ),
{
    let choices = response.choices@;
    let said = stream_choices_events(choices);
    let rest = events.skip(said.len() as int);
    law_chunk_gives(before, response, after, events);
    assert(events == said + rest);
    lemma_choices_tell_words(choices);
    lemma_no_words_told(rest);
    law_told_in_two_parts(said, rest);
    assert(text_told(said) + text_told(rest) == text_told(said));
    assert(thinking_told(said) + thinking_told(rest) == thinking_told(said));
    if choices.len() == 1 {
        let none = Seq::<ZAiStreamChoice>::empty();
        assert(choices == none.push(choices[0]));
        law_choice_is_told(none, choices[0]);
        if said.len() > 0 {
            assert(events[0] == said[0]);
        }
    }
}

/// An event is the end of the stream exactly if the word for it stands alone
/// between white space, and is empty exactly if nothing but white space stands
/// there. Any other is data without that white space.
pub proof fn law_events_are_told_apart(text: Seq<char>)
    ensures
        event_of(text) is Done <==> trimmed(text) == "[DONE]"@,
        event_of(text) is Empty <==> trimmed(text).len() == 0,
        event_of(text) matches StreamEventModel::Data(data) ==> data == trimmed(text),
{
    reveal_strlit("[DONE]");
}

/// What one element of a stream gives. A failure to read is passed on. The word
/// for the end stops the turn. Data that is a chunk is taken as one; other data
/// that is a response in one piece is taken as that. All else gives nothing.
/// Only a chunk changes which tool calls are pending.
pub proof fn law_element_gives(
    before: Map<usize, PendingCall>,
    element: Result<StreamItem, LanguageModelCompletionError>,
    after: Map<usize, PendingCall>,
    events: Seq<OutcomeModel>,
)
    requires
        element_step(before, element, after, events),
    ensures
        element matches Err(error) ==> after == before && events == seq![
            OutcomeModel::Err(error@),
        ],
        element matches Ok(item) ==> {
            let text = trimmed(item.text@);
            let data = text != "[DONE]"@ && text.len() > 0;
            &&& text == "[DONE]"@ ==> after == before && events == seq![
                OutcomeModel::Ok(EventModel::Stop(StopReason::EndTurn)),
            ]
            &&& text.len() == 0 ==> after == before && events.len() == 0
            &&& data && item.stream is Some ==> stream_step(
                before,
                item.stream->0,
                after,
                events,
            )
            &&& data && item.stream is None && item.response is Some ==> after == before && events
                == response_events(item.response->0)
            &&& data && item.stream is None && item.response is None ==> after == before
                && events.len() == 0
        },
{
    reveal_strlit("[DONE]");
    if element is Ok {
        law_events_are_told_apart(element->Ok_0.text@);
    }
}

/// A stream is mapped one element after the other to its end: an element more
/// gives its own events after those of the elements before it, whatever these
/// were.
pub proof fn law_stream_goes_on(
    before: Map<usize, PendingCall>,
    elements: Seq<Result<StreamItem, LanguageModelCompletionError>>,
    element: Result<StreamItem, LanguageModelCompletionError>,
    after: Map<usize, PendingCall>,
    events: Seq<OutcomeModel>,
)
    ensures
        stream_run(before, Seq::empty(), after, events) <==> after == before && events.len() == 0,
        stream_run(before, elements.push(element), after, events) <==> exists|
            middle: Map<usize, PendingCall>,
            split: int,
        |
            {
                &&& 0 <= split <= events.len()
                &&& stream_run(before, elements, middle, events.take(split))
                &&& #[trigger] element_step(middle, element, after, events.skip(split))
            },
{
    let longer = elements.push(element);
    assert(longer.drop_last() == elements);
    assert(longer.last() == element);
    if events.len() == 0 {
        assert(events == Seq::<OutcomeModel>::empty());
    }
}

} // verus!
