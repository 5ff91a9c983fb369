//! Laws of the events that responses give.
use super::chunks::{
    law_element_gives, law_events_are_told_apart, law_every_character_is_told,
    law_told_in_two_parts, lemma_no_words_told, text_streamed, text_told,
};
use super::responses::{law_every_character_of_response_is_told, text_given};
use crate::chat::{
    outcomes, CompletionResult, EventModel, LanguageModelCompletionError, OutcomeModel, StopReason,
    ToolInputModel,
};
use crate::mapper::{
    all_deltas, any_finished, arguments_input, call_at, call_events, choice_deltas, choice_events,
    choices_events, delta_arguments, delta_name, element_step, event_of, law_deltas_in_two_parts,
    lists_all, pending_after, response_events, response_stop_events, stop_reason,
    stream_choice_events, stream_choices_events, stream_event, stream_run, stream_step,
    usage_events, PendingCall, StreamEvent, StreamEventModel, StreamItem, ZAiEventMapper,
};
use crate::text::trimmed;
use crate::wire::{ZAiChoice, ZAiResponse, ZAiStreamChoice, ZAiStreamResponse, ZAiToolCallDelta};
use vstd::prelude::*;

verus! {

/// All pieces of the arguments that `deltas` give to the call with this index,
/// one after the other.
pub open spec fn given_arguments(deltas: Seq<ZAiToolCallDelta>, index: usize) -> Seq<char>
    decreases deltas.len(),
{
    if deltas.len() == 0 {
        Seq::empty()
    } else if deltas.last().index == index {
        given_arguments(deltas.drop_last(), index) + delta_arguments(deltas.last())
    } else {
        given_arguments(deltas.drop_last(), index)
    }
}

/// The last id that `deltas` give to the call with this index, if any does.
pub open spec fn given_id(deltas: Seq<ZAiToolCallDelta>, index: usize) -> Option<Seq<char>>
    decreases deltas.len(),
{
    if deltas.len() == 0 {
        None
    } else if deltas.last().index == index && deltas.last().id is Some {
        Some(deltas.last().id->0@)
    } else {
        given_id(deltas.drop_last(), index)
    }
}

/// The last name that `deltas` give to the call with this index, if any does.
pub open spec fn given_name(deltas: Seq<ZAiToolCallDelta>, index: usize) -> Option<Seq<char>>
    decreases deltas.len(),
{
    if deltas.len() == 0 {
        None
    } else if deltas.last().index == index && delta_name(deltas.last()) is Some {
        delta_name(deltas.last())
    } else {
        given_name(deltas.drop_last(), index)
    }
}

/// Whether any of `deltas` is for the call with this index.
pub open spec fn mentions(deltas: Seq<ZAiToolCallDelta>, index: usize) -> bool {
    exists|i: int| 0 <= i < deltas.len() && (#[trigger] deltas[i]).index == index
}

proof fn lemma_mentions_last(deltas: Seq<ZAiToolCallDelta>, index: usize)
    requires
        deltas.len() > 0,
    ensures
        mentions(deltas, index) == (deltas.last().index == index || mentions(
            deltas.drop_last(),
            index,
        )),
{
    let shorter = deltas.drop_last();
    if mentions(shorter, index) {
        let i = choose|i: int| 0 <= i < shorter.len() && (#[trigger] shorter[i]).index == index;
        assert(deltas[i].index == index);
    }
    if deltas.last().index == index {
        assert(deltas[deltas.len() - 1].index == index);
    }
    if mentions(deltas, index) {
        let i = choose|i: int| 0 <= i < deltas.len() && (#[trigger] deltas[i]).index == index;
        if i < shorter.len() {
            assert(shorter[i].index == index);
        }
    }
}

/// A tool call is put together from the pieces with its index, whatever else
/// comes between them: its arguments are all pieces one after the other, and
/// the last id and the last name count.
pub proof fn law_call_is_put_together(
    pending: Map<usize, PendingCall>,
    deltas: Seq<ZAiToolCallDelta>,
    index: usize,
)
    ensures
        pending_after(pending, deltas).contains_key(index) == (pending.contains_key(index)
            || mentions(deltas, index)),
        ({
            let call = call_at(pending, index);
            call_at(pending_after(pending, deltas), index) == PendingCall {
                id: match given_id(deltas, index) {
                    Some(id) => id,
                    None => call.id,
                },
                name: match given_name(deltas, index) {
                    Some(name) => name,
                    None => call.name,
                },
                arguments: call.arguments + given_arguments(deltas, index),
            }
        }),
    decreases deltas.len(),
{
    let call = call_at(pending, index);
    if deltas.len() == 0 {
        assert(call.arguments + Seq::<char>::empty() == call.arguments);
    } else {
        let shorter = deltas.drop_last();
        let last = deltas.last();
        law_call_is_put_together(pending, shorter, index);
        lemma_mentions_last(deltas, index);
        assert((call.arguments + given_arguments(shorter, index)) + delta_arguments(last)
            =~= call.arguments + (given_arguments(shorter, index) + delta_arguments(last)));
    }
}

/// Pieces for other calls leave a call as it is.
pub proof fn law_calls_are_kept_apart(
    pending: Map<usize, PendingCall>,
    deltas: Seq<ZAiToolCallDelta>,
    index: usize,
)
    requires
        !mentions(deltas, index),
    ensures
        pending_after(pending, deltas).contains_key(index) == pending.contains_key(index),
        call_at(pending_after(pending, deltas), index) == call_at(pending, index),
    decreases deltas.len(),
{
    if deltas.len() > 0 {
        lemma_mentions_last(deltas, index);
        law_calls_are_kept_apart(pending, deltas.drop_last(), index);
    }
}

proof fn lemma_flat_map_sum<A, B>(first: Seq<A>, second: Seq<A>, f: spec_fn(A) -> Seq<B>)
    ensures
        (first + second).flat_map(f) == first.flat_map(f) + second.flat_map(f),
    decreases second.len(),
{
    if second.len() == 0 {
        assert(first + second == first);
        assert(second.flat_map(f) =~= Seq::<B>::empty());
        assert(first.flat_map(f) + Seq::<B>::empty() == first.flat_map(f));
    } else {
        let shorter = second.drop_last();
        lemma_flat_map_sum(first, shorter, f);
        assert(second == shorter.push(second.last()));
        assert(first + second == (first + shorter).push(second.last()));
        (first + shorter).lemma_flat_map_push(f, second.last());
        shorter.lemma_flat_map_push(f, second.last());
        assert(first.flat_map(f) + shorter.flat_map(f) + f(second.last()) =~= first.flat_map(f) + (
        shorter.flat_map(f) + f(second.last())));
    }
}

proof fn lemma_any_finished_sum(first: Seq<ZAiStreamChoice>, second: Seq<ZAiStreamChoice>)
    ensures
        any_finished(first + second) == (any_finished(first) || any_finished(second)),
{
    let both = first + second;
    if any_finished(first) {
        let i = choose|i: int| 0 <= i < first.len() && (#[trigger] first[i]).finish_reason is Some;
        assert(both[i].finish_reason is Some);
    }
    if any_finished(second) {
        let i = choose|i: int|
            0 <= i < second.len() && (#[trigger] second[i]).finish_reason is Some;
        assert(both[first.len() + i].finish_reason is Some);
    }
    if any_finished(both) {
        let i = choose|i: int| 0 <= i < both.len() && (#[trigger] both[i]).finish_reason is Some;
        if i < first.len() {
            assert(first[i].finish_reason is Some);
        } else {
            assert(second[i - first.len()].finish_reason is Some);
        }
    }
}

/// Where a stream is cut into chunks does not matter, as long as no choice
/// finishes in the earlier chunk and the tokens used are told in the later one:
/// both chunks together give what the two give one after the other.
pub proof fn law_chunks_in_two_parts(
    before: Map<usize, PendingCall>,
    first: ZAiStreamResponse,
    middle: Map<usize, PendingCall>,
    first_events: Seq<OutcomeModel>,
    second: ZAiStreamResponse,
    after: Map<usize, PendingCall>,
    second_events: Seq<OutcomeModel>,
    whole: ZAiStreamResponse,
)
    requires
        !any_finished(first.choices@),
        first.usage is None,
        stream_step(before, first, middle, first_events),
        stream_step(middle, second, after, second_events),
        whole.choices@ == first.choices@ + second.choices@,
        whole.usage == second.usage,
    ensures
        stream_step(before, whole, after, first_events + second_events),
{
    let a = first.choices@;
    let b = second.choices@;
    lemma_any_finished_sum(a, b);
    lemma_flat_map_sum(a, b, |choice: ZAiStreamChoice| choice_deltas(choice));
    lemma_flat_map_sum(a, b, |choice: ZAiStreamChoice| stream_choice_events(choice));
    law_deltas_in_two_parts(before, all_deltas(a), all_deltas(b));
    let pending = pending_after(before, all_deltas(a + b));
    assert(pending == pending_after(middle, all_deltas(b)));
    assert(first_events =~= stream_choices_events(a));
    let usage = usage_events(second.usage);
    if any_finished(b) {
        let order = choose|order: Seq<usize>|
            {
                &&& #[trigger] lists_all(order, pending)
                &&& second_events == stream_choices_events(b) + call_events(pending, order) + usage
            };
        assert(first_events + second_events =~= stream_choices_events(a + b) + call_events(
            pending,
            order,
        ) + usage);
        assert(lists_all(order, pending));
    } else {
        assert(first_events + second_events =~= stream_choices_events(a + b) + usage);
    }
}

/// Whether `event` tells of a tool call.
pub open spec fn is_tool_use(event: OutcomeModel) -> bool {
    event matches Ok(EventModel::ToolUse(_))
}

/// Whether `event` tells that the model has stopped.
pub open spec fn is_stop(event: OutcomeModel) -> bool {
    event matches Ok(EventModel::Stop(_))
}

/// Whether `event` is no failure, and has words in it if it tells of words.
pub open spec fn is_sound(event: OutcomeModel) -> bool {
    match event {
        Ok(EventModel::Text(text)) => text.len() > 0,
        Ok(EventModel::Thinking { text, signature }) => text.len() > 0 && signature is None,
        Ok(EventModel::ToolUse(tool_use)) => tool_use.is_input_complete,
        Ok(_) => true,
        Err(_) => false,
    }
}

/// Whether all of `events` are sound.
pub open spec fn all_sound(events: Seq<OutcomeModel>) -> bool {
    forall|i: int| 0 <= i < events.len() ==> is_sound(#[trigger] events[i])
}

/// Whether none of `events` tells of a tool call.
pub open spec fn no_tool_use(events: Seq<OutcomeModel>) -> bool {
    forall|i: int| 0 <= i < events.len() ==> !is_tool_use(#[trigger] events[i])
}

proof fn lemma_stream_choices_events(choices: Seq<ZAiStreamChoice>)
    ensures
        all_sound(stream_choices_events(choices)),
        no_tool_use(stream_choices_events(choices)),
    decreases choices.len(),
{
    let f = |choice: ZAiStreamChoice| stream_choice_events(choice);
    if choices.len() == 0 {
        assert(choices.flat_map(f) =~= Seq::<OutcomeModel>::empty());
    } else {
        let shorter = choices.drop_last();
        lemma_stream_choices_events(shorter);
        assert(choices == shorter.push(choices.last()));
        shorter.lemma_flat_map_push(f, choices.last());
    }
}

/// Until a choice finishes, no tool call is told and none is lost. Once one
/// finishes, none is pending.
pub proof fn law_calls_wait_for_finish(
    before: Map<usize, PendingCall>,
    response: ZAiStreamResponse,
    after: Map<usize, PendingCall>,
    events: Seq<OutcomeModel>,
)
    requires
        stream_step(before, response, after, events),
    ensures
        !any_finished(response.choices@) ==> {
            &&& no_tool_use(events)
            &&& forall|index: usize|
                before.contains_key(index) ==> #[trigger] after.contains_key(index)
        },
        any_finished(response.choices@) ==> after == Map::<usize, PendingCall>::empty(),
{
    let choices = response.choices@;
    lemma_stream_choices_events(choices);
    if !any_finished(choices) {
        assert forall|index: usize| before.contains_key(index) implies #[trigger] after.contains_key(
            index,
        ) by {
            law_call_is_put_together(before, all_deltas(choices), index);
        }
    }
}

/// The tool calls that `events` tell of.
pub open spec fn tool_uses(events: Seq<OutcomeModel>) -> Seq<OutcomeModel> {
    events.filter(|event: OutcomeModel| is_tool_use(event))
}

proof fn lemma_tool_uses_none(events: Seq<OutcomeModel>)
    requires
        no_tool_use(events),
    ensures
        tool_uses(events) == Seq::<OutcomeModel>::empty(),
    decreases events.len(),
{
    reveal(Seq::filter);
    if events.len() > 0 {
        let shorter = events.drop_last();
        assert forall|i: int| 0 <= i < shorter.len() implies !is_tool_use(#[trigger] shorter[i]) by {
            assert(shorter[i] == events[i]);
        }
        lemma_tool_uses_none(shorter);
        assert(!is_tool_use(events[events.len() - 1]));
    }
}

proof fn lemma_tool_uses_all(events: Seq<OutcomeModel>)
    requires
        forall|i: int| 0 <= i < events.len() ==> is_tool_use(#[trigger] events[i]),
    ensures
        tool_uses(events) == events,
    decreases events.len(),
{
    reveal(Seq::filter);
    if events.len() > 0 {
        let shorter = events.drop_last();
        assert forall|i: int| 0 <= i < shorter.len() implies is_tool_use(#[trigger] shorter[i]) by {
            assert(shorter[i] == events[i]);
        }
        lemma_tool_uses_all(shorter);
        assert(is_tool_use(events[events.len() - 1]));
        assert(shorter.push(events.last()) == events);
    }
}

/// When a choice finishes, each pending tool call is told exactly once, in some
/// order.
pub proof fn law_each_call_is_told_once(
    before: Map<usize, PendingCall>,
    response: ZAiStreamResponse,
    after: Map<usize, PendingCall>,
    events: Seq<OutcomeModel>,
)
    requires
        any_finished(response.choices@),
        stream_step(before, response, after, events),
    ensures
        ({
            let pending = pending_after(before, all_deltas(response.choices@));
            exists|order: Seq<usize>|
                {
                    &&& #[trigger] lists_all(order, pending)
                    &&& tool_uses(events) == call_events(pending, order)
                }
        }),
{
    let choices = response.choices@;
    let pending = pending_after(before, all_deltas(choices));
    let told = stream_choices_events(choices);
    let usage = usage_events(response.usage);
    let order = choose|order: Seq<usize>|
        {
            &&& #[trigger] lists_all(order, pending)
            &&& events == told + call_events(pending, order) + usage
        };
    let calls = call_events(pending, order);
    let pick = |event: OutcomeModel| is_tool_use(event);
    lemma_stream_choices_events(choices);
    lemma_tool_uses_none(told);
    lemma_tool_uses_none(usage);
    lemma_tool_uses_all(calls);
    Seq::filter_distributes_over_add(told, calls, pick);
    Seq::filter_distributes_over_add(told + calls, usage, pick);
    assert(tool_uses(events) =~= calls);
}

/// What a chunk gives is never a failure, never empty text and never a tool
/// call whose input is not complete.
pub proof fn law_chunk_events_are_sound(
    before: Map<usize, PendingCall>,
    response: ZAiStreamResponse,
    after: Map<usize, PendingCall>,
    events: Seq<OutcomeModel>,
)
    requires
        stream_step(before, response, after, events),
    ensures
        all_sound(events),
{
    lemma_stream_choices_events(response.choices@);
}

proof fn lemma_choices_events(choices: Seq<ZAiChoice>)
    ensures
        all_sound(choices_events(choices)),
        forall|i: int|
            0 <= i < choices_events(choices).len() ==> !is_stop(
                #[trigger] choices_events(choices)[i],
            ),
    decreases choices.len(),
{
    let f = |choice: ZAiChoice| choice_events(choice);
    if choices.len() == 0 {
        assert(choices.flat_map(f) =~= Seq::<OutcomeModel>::empty());
    } else {
        let shorter = choices.drop_last();
        lemma_choices_events(shorter);
        assert(choices == shorter.push(choices.last()));
        shorter.lemma_flat_map_push(f, choices.last());
    }
}

/// What a response in one piece gives is never a failure, never empty text and
/// never a tool call whose input is not complete.
pub proof fn law_response_events_are_sound(response: ZAiResponse)
    ensures
        all_sound(response_events(response)),
{
    lemma_choices_events(response.choices@);
}

/// The stop events among `events`.
pub open spec fn stops(events: Seq<OutcomeModel>) -> Seq<OutcomeModel> {
    events.filter(|event: OutcomeModel| is_stop(event))
}

proof fn lemma_stops_none(events: Seq<OutcomeModel>)
    requires
        forall|i: int| 0 <= i < events.len() ==> !is_stop(#[trigger] events[i]),
    ensures
        stops(events) == Seq::<OutcomeModel>::empty(),
    decreases events.len(),
{
    reveal(Seq::filter);
    if events.len() > 0 {
        let shorter = events.drop_last();
        assert forall|i: int| 0 <= i < shorter.len() implies !is_stop(#[trigger] shorter[i]) by {
            assert(shorter[i] == events[i]);
        }
        lemma_stops_none(shorter);
        assert(!is_stop(events[events.len() - 1]));
    }
}

/// A response in one piece gives one stop event, however many choices it has,
/// and none if it has no choice.
pub proof fn law_response_stops_once(response: ZAiResponse)
    ensures
        stops(response_events(response)).len() == (if response.choices@.len() == 0 {
            0nat
        } else {
            1
        }),
{
    reveal(Seq::filter);
    let said = choices_events(response.choices@);
    let stop = response_stop_events(response.choices@);
    let usage = usage_events(response.usage);
    let pick = |event: OutcomeModel| is_stop(event);
    lemma_choices_events(response.choices@);
    lemma_stops_none(said);
    lemma_stops_none(usage);
    Seq::filter_distributes_over_add(said, stop, pick);
    Seq::filter_distributes_over_add(said + stop, usage, pick);
    if response.choices@.len() > 0 {
        assert(is_stop(stop[0]));
        assert(stop.drop_last() == Seq::<OutcomeModel>::empty());
        assert(Seq::<OutcomeModel>::empty().filter(pick) == Seq::<OutcomeModel>::empty());
        assert(stop.filter(pick) == Seq::<OutcomeModel>::empty().push(stop[0]));
    }
}

/// A completion of one choice without tool calls gives the same events whether
/// it comes as one chunk or in one piece.
pub proof fn law_streamed_as_whole(
    chunk: ZAiStreamResponse,
    response: ZAiResponse,
    after: Map<usize, PendingCall>,
    events: Seq<OutcomeModel>,
)
    requires
        chunk.choices@.len() == 1,
        response.choices@.len() == 1,
        chunk.choices@[0].delta.content is Some,
        chunk.choices@[0].delta.content->0 == response.choices@[0].message.content,
        chunk.choices@[0].delta.reasoning_content
            == response.choices@[0].message.reasoning_content,
        chunk.choices@[0].delta.tool_calls is None,
        response.choices@[0].message.tool_calls is None,
        chunk.choices@[0].finish_reason is Some,
        chunk.choices@[0].finish_reason == response.choices@[0].finish_reason,
        chunk.usage == response.usage,
        stream_step(Map::<usize, PendingCall>::empty(), chunk, after, events),
    ensures
        events == response_events(response),
{
    let streamed = chunk.choices@[0];
    let whole = response.choices@[0];
    let none = Map::<usize, PendingCall>::empty();
    assert(chunk.choices@ == seq![streamed]);
    assert(response.choices@ == seq![whole]);
    assert(chunk.choices@[0].finish_reason is Some);
    assert(any_finished(chunk.choices@));
    let f = |choice: ZAiStreamChoice| stream_choice_events(choice);
    let g = |choice: ZAiStreamChoice| choice_deltas(choice);
    let h = |choice: ZAiChoice| choice_events(choice);
    seq![streamed].lemma_flat_map_singleton(f);
    seq![streamed].lemma_flat_map_singleton(g);
    seq![whole].lemma_flat_map_singleton(h);
    assert(all_deltas(chunk.choices@) =~= Seq::empty());
    assert(pending_after(none, all_deltas(chunk.choices@)) == none);
    let order = choose|order: Seq<usize>|
        {
            &&& #[trigger] lists_all(order, none)
            &&& events == stream_choices_events(chunk.choices@) + call_events(none, order)
                + usage_events(chunk.usage)
        };
    assert(order.len() == 0) by {
        if order.len() > 0 {
            assert(order.to_set().contains(order[0]));
        }
    }
    assert(events =~= response_events(response));
}

proof fn lemma_run_last(
    before: Map<usize, PendingCall>,
    elements: Seq<Result<StreamItem, LanguageModelCompletionError>>,
    after: Map<usize, PendingCall>,
    events: Seq<OutcomeModel>,
) -> (r: (Map<usize, PendingCall>, Seq<OutcomeModel>, Seq<OutcomeModel>))
    requires
        elements.len() > 0,
        stream_run(before, elements, after, events),
    ensures
        stream_run(before, elements.drop_last(), r.0, r.1),
        element_step(r.0, elements.last(), after, r.2),
        events == r.1 + r.2,
{
    let (middle, split) = choose|middle: Map<usize, PendingCall>, split: int|
        {
            &&& 0 <= split <= events.len()
            &&& stream_run(before, elements.drop_last(), middle, events.take(split))
            &&& #[trigger] element_step(middle, elements.last(), after, events.skip(split))
        };
    assert(events == events.take(split) + events.skip(split));
    (middle, events.take(split), events.skip(split))
}

/// A stream may be mapped in parts: the parts' events one after the other are
/// those of the whole.
pub proof fn law_streams_in_two_parts(
    before: Map<usize, PendingCall>,
    first: Seq<Result<StreamItem, LanguageModelCompletionError>>,
    middle: Map<usize, PendingCall>,
    first_events: Seq<OutcomeModel>,
    second: Seq<Result<StreamItem, LanguageModelCompletionError>>,
    after: Map<usize, PendingCall>,
    second_events: Seq<OutcomeModel>,
)
    requires
        stream_run(before, first, middle, first_events),
        stream_run(middle, second, after, second_events),
    ensures
        stream_run(before, first + second, after, first_events + second_events),
    decreases second.len(),
{
    if second.len() == 0 {
        assert(first + second == first);
        assert(first_events + second_events == first_events);
    } else {
        let shorter = second.drop_last();
        let (inner, start, rest) = lemma_run_last(middle, second, after, second_events);
        law_streams_in_two_parts(before, first, middle, first_events, shorter, inner, start);
        let both = first + second;
        let events = first_events + second_events;
        let at = (first_events + start).len() as int;
        assert(both.drop_last() == first + shorter);
        assert(both.last() == second.last());
        assert(events.take(at) == first_events + start);
        assert(events.skip(at) == rest);
        assert(element_step(inner, both.last(), after, events.skip(at)));
    }
}

/// The input of each tool call that a chunk tells of is what its arguments
/// stand for.
pub proof fn law_streamed_inputs(
    before: Map<usize, PendingCall>,
    response: ZAiStreamResponse,
    after: Map<usize, PendingCall>,
    events: Seq<OutcomeModel>,
    i: int,
)
    requires
        stream_step(before, response, after, events),
        0 <= i < events.len(),
    ensures
        events[i] matches Ok(EventModel::ToolUse(tool_use)) ==> tool_use.input == arguments_input(
            tool_use.raw_input,
        ),
{
    let choices = response.choices@;
    let told = stream_choices_events(choices);
    lemma_stream_choices_events(choices);
    if i < told.len() {
        assert(events[i] == told[i]);
        assert(!is_tool_use(told[i]));
    }
}

proof fn lemma_choices_inputs(choices: Seq<ZAiChoice>, i: int)
    requires
        0 <= i < choices_events(choices).len(),
    ensures
        choices_events(choices)[i] matches Ok(EventModel::ToolUse(tool_use)) ==> tool_use.input
            == ToolInputModel::Text(tool_use.raw_input),
    decreases choices.len(),
{
    let f = |choice: ZAiChoice| choice_events(choice);
    if choices.len() == 0 {
        assert(choices.flat_map(f) =~= Seq::<OutcomeModel>::empty());
    } else {
        let shorter = choices.drop_last();
        assert(choices == shorter.push(choices.last()));
        shorter.lemma_flat_map_push(f, choices.last());
        if i < choices_events(shorter).len() {
            lemma_choices_inputs(shorter, i);
        }
    }
}

/// The input of each tool call that a response in one piece tells of is the
/// string of its arguments.
pub proof fn law_whole_inputs(response: ZAiResponse, i: int)
    requires
        0 <= i < response_events(response).len(),
    ensures
        response_events(response)[i] matches Ok(EventModel::ToolUse(tool_use)) ==> tool_use.input
            == ToolInputModel::Text(tool_use.raw_input),
{
    if i < choices_events(response.choices@).len() {
        lemma_choices_inputs(response.choices@, i);
    }
}

/// A stream that can be read to its end gives no failure: data that is neither
/// a chunk nor a response is passed over.
pub proof fn law_readable_stream_does_not_fail(
    before: Map<usize, PendingCall>,
    elements: Seq<Result<StreamItem, LanguageModelCompletionError>>,
    after: Map<usize, PendingCall>,
    events: Seq<OutcomeModel>,
)
    requires
        stream_run(before, elements, after, events),
        forall|i: int| 0 <= i < elements.len() ==> (#[trigger] elements[i]) is Ok,
    ensures
        all_sound(events),
    decreases elements.len(),
{
    if elements.len() > 0 {
        let shorter = elements.drop_last();
        let (middle, start, rest) = lemma_run_last(before, elements, after, events);
        assert forall|i: int| 0 <= i < shorter.len() implies (#[trigger] shorter[i]) is Ok by {
            assert(shorter[i] == elements[i]);
        }
        law_readable_stream_does_not_fail(before, shorter, middle, start);
        assert(elements[elements.len() - 1] is Ok);
        let item = elements.last()->Ok_0;
        if event_of(item.text@) is Data {
            if item.stream is Some {
                law_chunk_events_are_sound(
                    middle,
                    item.stream->0,
                    after,
                    rest,
                );
            } else if item.response is Some {
                law_response_events_are_sound(item.response->0);
            }
        }
        assert forall|i: int| 0 <= i < events.len() implies is_sound(#[trigger] events[i]) by {
            if i < start.len() {
                assert(events[i] == start[i]);
            } else {
                assert(events[i] == rest[i - start.len()]);
            }
        }
    }
}

/// The chunk that `element` is, if it is one.
pub open spec fn chunk_of(
    element: Result<StreamItem, LanguageModelCompletionError>,
) -> Option<ZAiStreamResponse> {
    match element {
        Ok(item) => match event_of(item.text@) {
            StreamEventModel::Data(_) => item.stream,
            _ => None,
        },
        Err(_) => None,
    }
}

/// Whether `element` is a response in one piece.
pub open spec fn is_response(element: Result<StreamItem, LanguageModelCompletionError>) -> bool {
    match element {
        Ok(item) => event_of(item.text@) is Data && item.stream is None && item.response is Some,
        Err(_) => false,
    }
}

/// The pieces of tool calls in `element`.
pub open spec fn element_deltas(
    element: Result<StreamItem, LanguageModelCompletionError>,
) -> Seq<ZAiToolCallDelta> {
    match chunk_of(element) {
        Some(chunk) => all_deltas(chunk.choices@),
        None => Seq::empty(),
    }
}

/// The pieces of tool calls in all of `elements`, in order.
pub open spec fn stream_deltas(
    elements: Seq<Result<StreamItem, LanguageModelCompletionError>>,
) -> Seq<ZAiToolCallDelta>
    decreases elements.len(),
{
    if elements.len() == 0 {
        Seq::empty()
    } else {
        stream_deltas(elements.drop_last()) + element_deltas(elements.last())
    }
}

/// Whether a choice finishes in `element`.
pub open spec fn finishes(element: Result<StreamItem, LanguageModelCompletionError>) -> bool {
    chunk_of(element) matches Some(chunk) && any_finished(chunk.choices@)
}

proof fn lemma_tool_uses_sum(first: Seq<OutcomeModel>, second: Seq<OutcomeModel>)
    ensures
        tool_uses(first + second) == tool_uses(first) + tool_uses(second),
{
    Seq::filter_distributes_over_add(first, second, |event: OutcomeModel| is_tool_use(event));
}

proof fn lemma_unfinished_element(
    before: Map<usize, PendingCall>,
    element: Result<StreamItem, LanguageModelCompletionError>,
    after: Map<usize, PendingCall>,
    events: Seq<OutcomeModel>,
)
    requires
        element_step(before, element, after, events),
        !finishes(element),
        !is_response(element),
    ensures
        after == pending_after(before, element_deltas(element)),
        tool_uses(events) == Seq::<OutcomeModel>::empty(),
{
    if chunk_of(element) is Some {
        law_calls_wait_for_finish(before, chunk_of(element)->0, after, events);
    }
    assert(no_tool_use(events));
    lemma_tool_uses_none(events);
}

/// While no choice finishes, a stream tells of no tool call and keeps all
/// pieces of them, in the order in which they come.
pub proof fn law_unfinished_stream_keeps_calls(
    before: Map<usize, PendingCall>,
    elements: Seq<Result<StreamItem, LanguageModelCompletionError>>,
    after: Map<usize, PendingCall>,
    events: Seq<OutcomeModel>,
)
    requires
        stream_run(before, elements, after, events),
        forall|i: int|
            0 <= i < elements.len() ==> !finishes(#[trigger] elements[i]) && !is_response(
                elements[i],
            ),
    ensures
        after == pending_after(before, stream_deltas(elements)),
        tool_uses(events) == Seq::<OutcomeModel>::empty(),
    decreases elements.len(),
{
    if elements.len() == 0 {
        lemma_tool_uses_none(events);
    } else {
        let shorter = elements.drop_last();
        let last = elements.last();
        let (middle, start, rest) = lemma_run_last(before, elements, after, events);
        assert forall|i: int| 0 <= i < shorter.len() implies !finishes(#[trigger] shorter[i])
            && !is_response(shorter[i]) by {
            assert(shorter[i] == elements[i]);
        }
        law_unfinished_stream_keeps_calls(before, shorter, middle, start);
        assert(last == elements[elements.len() - 1]);
        lemma_unfinished_element(middle, last, after, rest);
        law_deltas_in_two_parts(before, stream_deltas(shorter), element_deltas(last));
        lemma_tool_uses_sum(start, rest);
        assert(tool_uses(events) =~= Seq::<OutcomeModel>::empty());
    }
}

/// A stream whose last chunk is the first to finish tells of each tool call
/// once, put together from all its pieces in the whole stream, and keeps none.
pub proof fn law_stream_tells_its_calls(
    before: Map<usize, PendingCall>,
    elements: Seq<Result<StreamItem, LanguageModelCompletionError>>,
    after: Map<usize, PendingCall>,
    events: Seq<OutcomeModel>,
)
    requires
        stream_run(before, elements, after, events),
        elements.len() > 0,
        finishes(elements.last()),
        forall|i: int|
            0 <= i < elements.len() - 1 ==> !finishes(#[trigger] elements[i]) && !is_response(
                elements[i],
            ),
    ensures
        after == Map::<usize, PendingCall>::empty(),
        ({
            let calls = pending_after(before, stream_deltas(elements));
            exists|order: Seq<usize>|
                {
                    &&& #[trigger] lists_all(order, calls)
                    &&& tool_uses(events) == call_events(calls, order)
                }
        }),
{
    let shorter = elements.drop_last();
    let last = elements.last();
    let (middle, start, rest) = lemma_run_last(before, elements, after, events);
    assert forall|i: int| 0 <= i < shorter.len() implies !finishes(#[trigger] shorter[i])
        && !is_response(shorter[i]) by {
        assert(shorter[i] == elements[i]);
    }
    law_unfinished_stream_keeps_calls(before, shorter, middle, start);
    law_deltas_in_two_parts(before, stream_deltas(shorter), element_deltas(last));
    let chunk = chunk_of(last)->0;
    let calls = pending_after(before, stream_deltas(elements));
    law_each_call_is_told_once(middle, chunk, after, rest);
    let order = choose|order: Seq<usize>|
        {
            &&& #[trigger] lists_all(order, calls)
            &&& tool_uses(rest) == call_events(calls, order)
        };
    lemma_tool_uses_sum(start, rest);
    assert(tool_uses(events) =~= call_events(calls, order));
    assert(lists_all(order, calls));
}

/// The contents that the data of `elements` hold, one after the other: those of
/// the chunks, and of what is no chunk those of the responses.
pub open spec fn stream_text(
    elements: Seq<Result<StreamItem, LanguageModelCompletionError>>,
) -> Seq<char>
    decreases elements.len(),
{
    if elements.len() == 0 {
        Seq::empty()
    } else {
        stream_text(elements.drop_last()) + match elements.last() {
            Ok(item) => if trimmed(item.text@).len() == 0 || trimmed(item.text@) == "[DONE]"@ {
                Seq::empty()
            } else if item.stream is Some {
                text_streamed(item.stream->0.choices@)
            } else if item.response is Some {
                text_given(item.response->0.choices@)
            } else {
                Seq::empty()
            },
            Err(_) => Seq::empty(),
        }
    }
}

/// The text that a whole stream tells is exactly what its chunks hold, one after
/// the other, with every character and nothing between them.
pub proof fn law_stream_tells_its_text(
    before: Map<usize, PendingCall>,
    elements: Seq<Result<StreamItem, LanguageModelCompletionError>>,
    after: Map<usize, PendingCall>,
    events: Seq<OutcomeModel>,
)
    requires
        stream_run(before, elements, after, events),
    ensures
        text_told(events) == stream_text(elements),
    decreases elements.len(),
{
    if elements.len() > 0 {
        let last = elements.last();
        let (middle, start, rest) = lemma_run_last(before, elements, after, events);
        law_stream_tells_its_text(before, elements.drop_last(), middle, start);
        law_told_in_two_parts(start, rest);
        law_element_gives(middle, last, after, rest);
        if last is Ok {
            let item = last->Ok_0;
            let text = trimmed(item.text@);
            if text.len() > 0 && text != "[DONE]"@ && item.stream is Some {
                law_every_character_is_told(middle, item.stream->0, after, rest);
            } else if text.len() > 0 && text != "[DONE]"@ && item.response is Some {
                law_every_character_of_response_is_told(item.response->0);
            } else {
                lemma_no_words_told(rest);
                assert(text_told(rest) == Seq::<char>::empty());
            }
        } else {
            lemma_no_words_told(rest);
            assert(text_told(rest) == Seq::<char>::empty());
        }
        assert(text_told(events) =~= stream_text(elements));
    }
}

/// Mapping a whole stream tells exactly the text that its chunks hold.
pub proof fn law_mapped_stream_tells_its_text(
    mapper: ZAiEventMapper,
    elements: Vec<Result<StreamItem, LanguageModelCompletionError>>,
    told: Vec<CompletionResult>,
)
    requires
        call_ensures(ZAiEventMapper::map_stream, (mapper, elements), told),
    ensures
        text_told(outcomes(told@)) == stream_text(elements@),
{
    let after = choose|after: Map<usize, PendingCall>|
        stream_run(mapper@, elements@, after, outcomes(told@));
    law_stream_tells_its_text(mapper@, elements@, after, outcomes(told@));
}

/// An event with this text is told to be what its text says.
pub proof fn law_event_is_understood(text: &str, r: StreamEvent)
    requires
        call_ensures(stream_event, (text,), r),
    ensures
        r is Done <==> trimmed(text@) == "[DONE]"@,
        r is Empty <==> trimmed(text@).len() == 0,
        r matches StreamEvent::Data(data) ==> data@ == trimmed(text@),
{
    law_events_are_told_apart(text@);
}

/// A finish reason means that tools are to be called or that the context is full
/// exactly where it says so, and the end of the turn otherwise.
pub proof fn law_finish_reasons(reason: &str, r: StopReason)
    requires
        call_ensures(stop_reason, (reason,), r),
    ensures
        r is ToolUse <==> reason@ == "tool_calls"@,
        r is MaxTokens <==> reason@ == "length"@,
        r is EndTurn <==> reason@ != "tool_calls"@ && reason@ != "length"@,
{
    reveal_strlit("tool_calls");
    reveal_strlit("length");
    assert("tool_calls"@.len() != "length"@.len());
}

} // verus!
