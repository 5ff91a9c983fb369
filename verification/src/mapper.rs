//! From the service's responses to completion events.
use crate::chat::{
    outcome, outcomes, CompletionResult, EventModel, LanguageModelCompletionError,
    LanguageModelCompletionEvent, LanguageModelToolUse, OutcomeModel, StopReason, TokenUsage,
    ToolInput, ToolInputModel, ToolUseModel,
};
use crate::failure::{cloud_failure, parse_error};
use crate::json::{json_parsed, json_str, json_text, parse_value, value_str, value_text};
use crate::text::{same, trim, trimmed};
use crate::wire::{
    ZAiChoice, ZAiResponse, ZAiStreamChoice, ZAiStreamResponse, ZAiToolCallDelta,
    ZAiToolCallResponse, ZAiUsage,
};
use std::collections::HashMap;
use vstd::prelude::*;

verus! {

/// What is known so far of a tool call that is being streamed.
pub struct PendingCall {
    pub id: Seq<char>,
    pub name: Seq<char>,
    pub arguments: Seq<char>,
}

/// The tool call of which nothing has come yet.
pub open spec fn no_call() -> PendingCall {
    PendingCall { id: Seq::empty(), name: Seq::empty(), arguments: Seq::empty() }
}

/// The call with this index, whether or not anything of it has come.
pub open spec fn call_at(pending: Map<usize, PendingCall>, index: usize) -> PendingCall {
    if pending.contains_key(index) {
        pending[index]
    } else {
        no_call()
    }
}

/// The name in `delta`, if it gives one.
pub open spec fn delta_name(delta: ZAiToolCallDelta) -> Option<Seq<char>> {
    match delta.function {
        Some(function) => match function.name {
            Some(name) => Some(name@),
            None => None,
        },
        None => None,
    }
}

/// The piece of the arguments in `delta`; empty if it gives none.
pub open spec fn delta_arguments(delta: ZAiToolCallDelta) -> Seq<char> {
    match delta.function {
        Some(function) => match function.arguments {
            Some(arguments) => arguments@,
            None => Seq::empty(),
        },
        None => Seq::empty(),
    }
}

/// `call` with what `delta` says: an id or a name replaces the one known, a
/// piece of the arguments goes to the end of those known.
pub open spec fn call_after(call: PendingCall, delta: ZAiToolCallDelta) -> PendingCall {
    PendingCall {
        id: match delta.id {
            Some(id) => id@,
            None => call.id,
        },
        name: match delta_name(delta) {
            Some(name) => name,
            None => call.name,
        },
        arguments: call.arguments + delta_arguments(delta),
    }
}

/// The pending calls once `delta` has come.
pub open spec fn pending_after_delta(
    pending: Map<usize, PendingCall>,
    delta: ZAiToolCallDelta,
) -> Map<usize, PendingCall> {
    pending.insert(delta.index, call_after(call_at(pending, delta.index), delta))
}

/// The pending calls once each of `deltas` has come, in order.
pub open spec fn pending_after(
    pending: Map<usize, PendingCall>,
    deltas: Seq<ZAiToolCallDelta>,
) -> Map<usize, PendingCall>
    decreases deltas.len(),
{
    if deltas.len() == 0 {
        pending
    } else {
        pending_after_delta(pending_after(pending, deltas.drop_last()), deltas.last())
    }
}

/// The tool call deltas of `choice`.
pub open spec fn choice_deltas(choice: ZAiStreamChoice) -> Seq<ZAiToolCallDelta> {
    match choice.delta.tool_calls {
        Some(deltas) => deltas@,
        None => Seq::empty(),
    }
}

/// The tool call deltas of all `choices`, in order.
pub open spec fn all_deltas(choices: Seq<ZAiStreamChoice>) -> Seq<ZAiToolCallDelta> {
    choices.flat_map(|choice: ZAiStreamChoice| choice_deltas(choice))
}

/// The reason that `finish_reason` stands for. Whatever is not a call of tools
/// or a full context ends the turn.
pub open spec fn stop_reason_of(finish_reason: Seq<char>) -> StopReason {
    if finish_reason == "tool_calls"@ {
        StopReason::ToolUse
    } else if finish_reason == "length"@ {
        StopReason::MaxTokens
    } else {
        StopReason::EndTurn
    }
}

/// The event for thinking, unless there is none or it is empty.
pub open spec fn thinking_events(text: Option<String>) -> Seq<OutcomeModel> {
    match text {
        Some(text) => if text@.len() == 0 {
            Seq::empty()
        } else {
            seq![Ok(EventModel::Thinking { text: text@, signature: None })]
        },
        None => Seq::empty(),
    }
}

/// The event for text, unless it is empty.
pub open spec fn text_events(text: Seq<char>) -> Seq<OutcomeModel> {
    if text.len() == 0 {
        Seq::empty()
    } else {
        seq![Ok(EventModel::Text(text))]
    }
}

/// The event for text, unless there is none or it is empty.
pub open spec fn optional_text_events(text: Option<String>) -> Seq<OutcomeModel> {
    match text {
        Some(text) => text_events(text@),
        None => Seq::empty(),
    }
}

/// The stop event of a choice that has finished.
pub open spec fn finish_events(finish_reason: Option<String>) -> Seq<OutcomeModel> {
    match finish_reason {
        Some(reason) => seq![Ok(EventModel::Stop(stop_reason_of(reason@)))],
        None => Seq::empty(),
    }
}

/// The event for the tokens used, if they are told.
pub open spec fn usage_events(usage: Option<ZAiUsage>) -> Seq<OutcomeModel> {
    match usage {
        Some(usage) => seq![
            Ok(
                EventModel::UsageUpdate(
                    TokenUsage {
                        input_tokens: usage.prompt_tokens,
                        output_tokens: usage.completion_tokens,
                        cache_creation_input_tokens: 0,
                        cache_read_input_tokens: 0,
                    },
                ),
            ),
        ],
        None => Seq::empty(),
    }
}

/// The events that come from what `choice` itself says, tool calls aside.
pub open spec fn stream_choice_events(choice: ZAiStreamChoice) -> Seq<OutcomeModel> {
    thinking_events(choice.delta.reasoning_content) + optional_text_events(choice.delta.content)
        + finish_events(choice.finish_reason)
}

/// The events that come from what all `choices` say, tool calls aside.
pub open spec fn stream_choices_events(choices: Seq<ZAiStreamChoice>) -> Seq<OutcomeModel> {
    choices.flat_map(|choice: ZAiStreamChoice| stream_choice_events(choice))
}

/// Whether any of `choices` has finished.
pub open spec fn any_finished(choices: Seq<ZAiStreamChoice>) -> bool {
    exists|i: int| 0 <= i < choices.len() && (#[trigger] choices[i]).finish_reason is Some
}

/// The input that the arguments of a streamed tool call stand for: no arguments
/// are the empty object, and what is no JSON is a string.
pub open spec fn arguments_input(arguments: Seq<char>) -> ToolInputModel {
    if arguments.len() == 0 {
        ToolInputModel::EmptyObject
    } else {
        match json_parsed(arguments) {
            Some(text) => ToolInputModel::Parsed(text),
            None => ToolInputModel::Text(arguments),
        }
    }
}

/// The event for a streamed tool call that is complete.
pub open spec fn call_outcome(call: PendingCall) -> OutcomeModel {
    Ok(
        EventModel::ToolUse(
            ToolUseModel {
                id: call.id,
                name: call.name,
                raw_input: call.arguments,
                input: arguments_input(call.arguments),
                is_input_complete: true,
            },
        ),
    )
}

/// Whether `order` lists the indices of `pending`, each of them once.
pub open spec fn lists_all(order: Seq<usize>, pending: Map<usize, PendingCall>) -> bool {
    &&& order.no_duplicates()
    &&& order.to_set() == pending.dom()
}

/// The events for the calls of `pending` in the order of their indices in `order`.
pub open spec fn call_events(
    pending: Map<usize, PendingCall>,
    order: Seq<usize>,
) -> Seq<OutcomeModel> {
    order.map_values(|index: usize| call_outcome(pending[index]))
}

/// Whether a chunk takes the pending calls from `before` to `after` and gives
/// `events`. Calls are told once a choice has finished, in no particular order.
pub open spec fn stream_step(
    before: Map<usize, PendingCall>,
    response: ZAiStreamResponse,
    after: Map<usize, PendingCall>,
    events: Seq<OutcomeModel>,
) -> bool {
    let choices = response.choices@;
    let pending = pending_after(before, all_deltas(choices));
    if any_finished(choices) {
        &&& after == Map::<usize, PendingCall>::empty()
        &&& exists|order: Seq<usize>|
            {
                &&& #[trigger] lists_all(order, pending)
                &&& events == stream_choices_events(choices) + call_events(pending, order)
                    + usage_events(response.usage)
            }
    } else {
        &&& after == pending
        &&& events == stream_choices_events(choices) + usage_events(response.usage)
    }
}

/// The arguments of a tool call that came in one piece: the characters of a
/// JSON string, or the text of any other JSON value.
pub open spec fn response_arguments(arguments: serde_json::Value) -> Seq<char> {
    match json_str(arguments) {
        Some(text) => text,
        None => json_text(arguments),
    }
}

/// The event for a tool call that came in one piece.
pub open spec fn response_call_outcome(call: ZAiToolCallResponse) -> OutcomeModel {
    let arguments = response_arguments(call.function.arguments);
    Ok(
        EventModel::ToolUse(
            ToolUseModel {
                id: call.id@,
                name: call.function.name@,
                raw_input: arguments,
                input: ToolInputModel::Text(arguments),
                is_input_complete: true,
            },
        ),
    )
}

/// The events for tool calls that came in one piece.
pub open spec fn response_call_events(
    calls: Option<Vec<ZAiToolCallResponse>>,
) -> Seq<OutcomeModel> {
    match calls {
        Some(calls) => calls@.map_values(|call: ZAiToolCallResponse| response_call_outcome(call)),
        None => Seq::empty(),
    }
}

/// The events for what one choice of a response says.
pub open spec fn choice_events(choice: ZAiChoice) -> Seq<OutcomeModel> {
    thinking_events(choice.message.reasoning_content) + text_events(choice.message.content@)
        + response_call_events(choice.message.tool_calls)
}

/// The events for what all `choices` of a response say.
pub open spec fn choices_events(choices: Seq<ZAiChoice>) -> Seq<OutcomeModel> {
    choices.flat_map(|choice: ZAiChoice| choice_events(choice))
}

/// The stop event of a response, for which its first choice counts.
pub open spec fn response_stop_events(choices: Seq<ZAiChoice>) -> Seq<OutcomeModel> {
    if choices.len() == 0 {
        Seq::empty()
    } else {
        seq![
            Ok(
                EventModel::Stop(
                    match choices[0].finish_reason {
                        Some(reason) => stop_reason_of(reason@),
                        None => StopReason::EndTurn,
                    },
                ),
            ),
        ]
    }
}

/// The events for a completion that came in one piece.
pub open spec fn response_events(response: ZAiResponse) -> Seq<OutcomeModel> {
    choices_events(response.choices@) + response_stop_events(response.choices@) + usage_events(
        response.usage,
    )
}

/// The events for the outcome of parsing a response: those of the response, or
/// one failure that quotes the parser.
pub open spec fn parsed_response_events(parsed: Result<ZAiResponse, String>) -> Seq<OutcomeModel> {
    match parsed {
        Ok(response) => response_events(response),
        Err(error) => seq![
            Err(cloud_failure("parse_error"@, "Failed to parse Z.AI response: "@ + error@)),
        ],
    }
}

/// What a stream says in one event, once the white space round it is gone.
#[derive(Debug, PartialEq)]
pub enum StreamEvent {
    /// The service says that the stream is over.
    Done,
    /// Nothing.
    Empty,
    /// This text, which is to be parsed.
    Data(String),
}

/// What a `StreamEvent` holds.
pub enum StreamEventModel {
    Done,
    Empty,
    Data(Seq<char>),
}

impl View for StreamEvent {
    type V = StreamEventModel;

    open spec fn view(&self) -> StreamEventModel {
        match self {
            StreamEvent::Done => StreamEventModel::Done,
            StreamEvent::Empty => StreamEventModel::Empty,
            StreamEvent::Data(text) => StreamEventModel::Data(text@),
        }
    }
}

/// What the event with this text says.
pub open spec fn event_of(text: Seq<char>) -> StreamEventModel {
    let text = trimmed(text);
    if text == "[DONE]"@ {
        StreamEventModel::Done
    } else if text.len() == 0 {
        StreamEventModel::Empty
    } else {
        StreamEventModel::Data(text)
    }
}

/// Tells what the event with this text says.
pub fn stream_event(text: &str) -> (r: StreamEvent)
    ensures
        r@ == event_of(text@),
{
    let text = trim(text);
    if same(text, "[DONE]") {
        StreamEvent::Done
    } else if text.is_empty() {
        StreamEvent::Empty
    } else {
        StreamEvent::Data(text.to_string())
    }
}

/// The text of one event of a stream, with what parsing its data gave: as a
/// chunk, and as a response in one piece.
#[derive(Debug, PartialEq)]
pub struct StreamItem {
    pub text: String,
    pub stream: Option<ZAiStreamResponse>,
    pub response: Option<ZAiResponse>,
}

/// Whether `item` takes the pending calls from `before` to `after` and gives
/// `events`. Data is taken as a chunk if it is one, else as a response in one
/// piece if it is one, and is passed over if it is neither.
pub open spec fn item_step(
    before: Map<usize, PendingCall>,
    item: StreamItem,
    after: Map<usize, PendingCall>,
    events: Seq<OutcomeModel>,
) -> bool {
    match event_of(item.text@) {
        StreamEventModel::Done => {
            &&& after == before
            &&& events == seq![OutcomeModel::Ok(EventModel::Stop(StopReason::EndTurn))]
        },
        StreamEventModel::Empty => {
            &&& after == before
            &&& events == Seq::<OutcomeModel>::empty()
        },
        StreamEventModel::Data(_) => match (item.stream, item.response) {
            (Some(response), _) => stream_step(before, response, after, events),
            (None, Some(response)) => {
                &&& after == before
                &&& events == response_events(response)
            },
            (None, None) => {
                &&& after == before
                &&& events == Seq::<OutcomeModel>::empty()
            },
        },
    }
}

/// Whether one element of a stream takes the pending calls from `before` to
/// `after` and gives `events`. A failure to read the stream is passed on.
pub open spec fn element_step(
    before: Map<usize, PendingCall>,
    element: Result<StreamItem, LanguageModelCompletionError>,
    after: Map<usize, PendingCall>,
    events: Seq<OutcomeModel>,
) -> bool {
    match element {
        Ok(item) => item_step(before, item, after, events),
        Err(error) => {
            &&& after == before
            &&& events == seq![OutcomeModel::Err(error@)]
        },
    }
}

/// Whether the elements of a stream take the pending calls from `before` to
/// `after` and give `events`, one element after the other.
pub open spec fn stream_run(
    before: Map<usize, PendingCall>,
    elements: Seq<Result<StreamItem, LanguageModelCompletionError>>,
    after: Map<usize, PendingCall>,
    events: Seq<OutcomeModel>,
) -> bool
    decreases elements.len(),
{
    if elements.len() == 0 {
        &&& after == before
        &&& events == Seq::<OutcomeModel>::empty()
    } else {
        exists|middle: Map<usize, PendingCall>, split: int|
            {
                &&& 0 <= split <= events.len()
                &&& stream_run(before, elements.drop_last(), middle, events.take(split))
                &&& #[trigger] element_step(middle, elements.last(), after, events.skip(split))
            }
    }
}

/// A tool call that is being streamed.
struct RawToolCall {
    id: String,
    name: String,
    arguments: String,
}

impl RawToolCall {
    spec fn view(&self) -> PendingCall {
        PendingCall { id: self.id@, name: self.name@, arguments: self.arguments@ }
    }

    fn new() -> (r: Self)
        ensures
            r@ == no_call(),
    {
        RawToolCall { id: String::new(), name: String::new(), arguments: String::new() }
    }

    /// Takes in what `delta` says of this call.
    fn absorb(&mut self, delta: &ZAiToolCallDelta)
        ensures
            final(self)@ == call_after(old(self)@, *delta),
    {
        if let Some(id) = &delta.id {
            self.id = id.clone();
        }
        if let Some(function) = &delta.function {
            if let Some(name) = &function.name {
                self.name = name.clone();
            }
            if let Some(arguments) = &function.arguments {
                self.arguments.append(arguments.as_str());
            }
        }
    }

    /// The event that tells of this call, as far as it has come.
    fn event(&self) -> (r: CompletionResult)
        ensures
            outcome(r) == call_outcome(self@),
    {
        let input = if self.arguments.as_str().is_empty() {
            ToolInput::EmptyObject
        } else {
            match parse_value(self.arguments.as_str()) {
                Ok(value) => ToolInput::Parsed(value),
                Err(_) => ToolInput::Text(self.arguments.clone()),
            }
        };
        Ok(
            LanguageModelCompletionEvent::ToolUse(
                LanguageModelToolUse {
                    id: self.id.clone(),
                    name: self.name.clone(),
                    raw_input: self.arguments.clone(),
                    input,
                    is_input_complete: true,
                },
            ),
        )
    }
}

/// Pieces of tool calls may come together or one after the other: taking in
/// `first` and then `second` is taking in both at once.
pub proof fn law_deltas_in_two_parts(
    pending: Map<usize, PendingCall>,
    first: Seq<ZAiToolCallDelta>,
    second: Seq<ZAiToolCallDelta>,
)
    ensures
        pending_after(pending, first + second) == pending_after(
            pending_after(pending, first),
            second,
        ),
    decreases second.len(),
{
    if second.len() == 0 {
        assert(first + second == first);
    } else {
        assert((first + second).drop_last() == first + second.drop_last());
        law_deltas_in_two_parts(pending, first, second.drop_last());
    }
}

proof fn lemma_run_push(
    before: Map<usize, PendingCall>,
    elements: Seq<Result<StreamItem, LanguageModelCompletionError>>,
    middle: Map<usize, PendingCall>,
    first: Seq<OutcomeModel>,
    element: Result<StreamItem, LanguageModelCompletionError>,
    after: Map<usize, PendingCall>,
    rest: Seq<OutcomeModel>,
)
    requires
        stream_run(before, elements, middle, first),
        element_step(middle, element, after, rest),
    ensures
        stream_run(before, elements.push(element), after, first + rest),
{
    let longer = elements.push(element);
    assert(longer.drop_last() == elements);
    assert(longer.last() == element);
    let events = first + rest;
    let split = first.len() as int;
    assert(events.take(split) == first);
    assert(events.skip(split) == rest);
    assert(element_step(middle, longer.last(), after, events.skip(split)));
}

proof fn lemma_outcomes_push(results: Seq<CompletionResult>, result: CompletionResult)
    ensures
        outcomes(results.push(result)) == outcomes(results).push(outcome(result)),
{
    assert(outcomes(results.push(result)) =~= outcomes(results).push(outcome(result)));
}

proof fn lemma_all_deltas_take(choices: Seq<ZAiStreamChoice>, i: int)
    requires
        0 <= i < choices.len(),
    ensures
        all_deltas(choices.take(i + 1)) == all_deltas(choices.take(i)) + choice_deltas(choices[i]),
{
    choices.lemma_flat_map_take_append(|choice: ZAiStreamChoice| choice_deltas(choice), i);
}

proof fn lemma_stream_choices_events_take(choices: Seq<ZAiStreamChoice>, i: int)
    requires
        0 <= i < choices.len(),
    ensures
        stream_choices_events(choices.take(i + 1)) == stream_choices_events(choices.take(i))
            + stream_choice_events(choices[i]),
{
    choices.lemma_flat_map_take_append(|choice: ZAiStreamChoice| stream_choice_events(choice), i);
}

proof fn lemma_any_finished_take(choices: Seq<ZAiStreamChoice>, i: int)
    requires
        0 <= i < choices.len(),
    ensures
        any_finished(choices.take(i + 1)) == (any_finished(choices.take(i))
            || choices[i].finish_reason is Some),
{
    let shorter = choices.take(i);
    let longer = choices.take(i + 1);
    if any_finished(shorter) {
        let j = choose|j: int| 0 <= j < shorter.len() && (#[trigger] shorter[j]).finish_reason is Some;
        assert(longer[j].finish_reason is Some);
    }
    if choices[i].finish_reason is Some {
        assert(longer[i].finish_reason is Some);
    }
    if any_finished(longer) {
        let j = choose|j: int| 0 <= j < longer.len() && (#[trigger] longer[j]).finish_reason is Some;
        if j < i {
            assert(shorter[j].finish_reason is Some);
        }
    }
}

proof fn lemma_choices_events_take(choices: Seq<ZAiChoice>, i: int)
    requires
        0 <= i < choices.len(),
    ensures
        choices_events(choices.take(i + 1)) == choices_events(choices.take(i)) + choice_events(
            choices[i],
        ),
{
    choices.lemma_flat_map_take_append(|choice: ZAiChoice| choice_events(choice), i);
}

/// The reason that `finish_reason` stands for.
pub fn stop_reason(finish_reason: &str) -> (r: StopReason)
    ensures
        r == stop_reason_of(finish_reason@),
{
    if same(finish_reason, "tool_calls") {
        StopReason::ToolUse
    } else if same(finish_reason, "length") {
        StopReason::MaxTokens
    } else {
        StopReason::EndTurn
    }
}

fn push_event(events: &mut Vec<CompletionResult>, event: LanguageModelCompletionEvent)
    ensures
        outcomes(final(events)@) == outcomes(old(events)@) + seq![Ok(event@)],
{
    proof {
        lemma_outcomes_push(events@, Ok(event));
    }
    events.push(Ok(event));
    assert(outcomes(events@) =~= outcomes(old(events)@) + seq![Ok(event@)]);
}

fn push_thinking(events: &mut Vec<CompletionResult>, text: &Option<String>)
    ensures
        outcomes(final(events)@) == outcomes(old(events)@) + thinking_events(*text),
{
    if let Some(text) = text {
        if !text.as_str().is_empty() {
            push_event(
                events,
                LanguageModelCompletionEvent::Thinking { text: text.clone(), signature: None },
            );
        }
    }
}

fn push_text(events: &mut Vec<CompletionResult>, text: &String)
    ensures
        outcomes(final(events)@) == outcomes(old(events)@) + text_events(text@),
{
    if !text.as_str().is_empty() {
        push_event(events, LanguageModelCompletionEvent::Text(text.clone()));
    }
}

fn push_usage(events: &mut Vec<CompletionResult>, usage: &Option<ZAiUsage>)
    ensures
        outcomes(final(events)@) == outcomes(old(events)@) + usage_events(*usage),
{
    if let Some(usage) = usage {
        push_event(
            events,
            LanguageModelCompletionEvent::UsageUpdate(
                TokenUsage {
                    input_tokens: usage.prompt_tokens,
                    output_tokens: usage.completion_tokens,
                    cache_creation_input_tokens: 0,
                    cache_read_input_tokens: 0,
                },
            ),
        );
    }
}

fn push_response_call(events: &mut Vec<CompletionResult>, call: &ZAiToolCallResponse)
    ensures
        outcomes(final(events)@) == outcomes(old(events)@) + seq![response_call_outcome(*call)],
{
    let arguments: String = match value_str(&call.function.arguments) {
        Some(text) => text.to_string(),
        None => value_text(&call.function.arguments),
    };
    push_event(
        events,
        LanguageModelCompletionEvent::ToolUse(
            LanguageModelToolUse {
                id: call.id.clone(),
                name: call.function.name.clone(),
                raw_input: arguments.clone(),
                input: ToolInput::Text(arguments),
                is_input_complete: true,
            },
        ),
    );
}

fn push_response_calls(
    events: &mut Vec<CompletionResult>,
    calls: &Option<Vec<ZAiToolCallResponse>>,
)
    ensures
        outcomes(final(events)@) == outcomes(old(events)@) + response_call_events(*calls),
{
    let ghost told = outcomes(events@);
    if let Some(calls) = calls {
        let ghost all = response_call_events(Some(*calls));
        let mut i: usize = 0;
        assert(told =~= told + all.take(0));
        while i < calls.len()
            invariant
                i <= calls@.len(),
                all == response_call_events(Some(*calls)),
                outcomes(events@) == told + all.take(i as int),
            decreases calls@.len() - i,
        {
            push_response_call(events, &calls[i]);
            assert(all.take(i + 1) == all.take(i as int) + seq![
                response_call_outcome(calls@[i as int]),
            ]);
            i += 1;
        }
        assert(all.take(i as int) == all);
    } else {
        assert(told =~= told + Seq::empty());
    }
}

/// Turns the responses of one completion into events. It keeps the tool calls
/// whose pieces are still coming, by their index.
pub struct ZAiEventMapper {
    tool_calls_by_index: HashMap<usize, RawToolCall>,
}

impl View for ZAiEventMapper {
    type V = Map<usize, PendingCall>;

    closed spec fn view(&self) -> Map<usize, PendingCall> {
        self.tool_calls_by_index@.map_values(|call: RawToolCall| call@)
    }
}

impl ZAiEventMapper {
    /// A mapper to which nothing has come yet.
    pub fn new() -> (r: Self)
        ensures
            r@ == Map::<usize, PendingCall>::empty(),
    {
        let r = ZAiEventMapper { tool_calls_by_index: HashMap::new() };
        assert(r@ =~= Map::<usize, PendingCall>::empty());
        r
    }

    /// Takes in one piece of a tool call.
    fn add_delta(&mut self, delta: &ZAiToolCallDelta)
        ensures
            final(self)@ == pending_after_delta(old(self)@, *delta),
    {
        let entry = self.tool_calls_by_index.entry(delta.index);
        let call = entry.or_insert(RawToolCall::new());
        call.absorb(delta);
        assert(self@ =~= pending_after_delta(old(self)@, *delta));
    }

    /// Takes in the pieces of tool calls in order.
    fn add_deltas(&mut self, deltas: &Vec<ZAiToolCallDelta>)
        ensures
            final(self)@ == pending_after(old(self)@, deltas@),
    {
        let mut i: usize = 0;
        while i < deltas.len()
            invariant
                i <= deltas@.len(),
                self@ == pending_after(old(self)@, deltas@.take(i as int)),
            decreases deltas@.len() - i,
        {
            assert(deltas@.take(i + 1).drop_last() == deltas@.take(i as int));
            self.add_delta(&deltas[i]);
            i += 1;
        }
        assert(deltas@.take(i as int) == deltas@);
    }

    /// Takes out all pending tool calls, and tells of each.
    fn drain_calls(&mut self) -> (r: Vec<CompletionResult>)
        ensures
            final(self)@ == Map::<usize, PendingCall>::empty(),
            exists|order: Seq<usize>|
                {
                    &&& #[trigger] lists_all(order, old(self)@)
                    &&& outcomes(r@) == call_events(old(self)@, order)
                },
    {
        let mut events: Vec<CompletionResult> = Vec::new();
        let ghost pending = self@;
        let ghost order = vstd::std_specs::iter::IteratorSpec::remaining(
            &self.tool_calls_by_index.keys(),
        ).unref();
        assert(pending.dom() == self.tool_calls_by_index@.dom());
        for index in it: self.tool_calls_by_index.keys()
            invariant
                pending == self@,
                order == it.seq().unref(),
                order.no_duplicates(),
                order.to_set() == self.tool_calls_by_index@.dom(),
                outcomes(events@) == call_events(pending, order.take(it.index())),
        {
            assert(order[it.index()] == *index);
            assert(order.to_set().contains(*index));
            assert(self.tool_calls_by_index@.contains_key(*index));
            if let Some(call) = self.tool_calls_by_index.get(index) {
                let event = call.event();
                assert(outcome(event) == call_outcome(pending[*index]));
                assert(order.take(it.index() + 1) == order.take(it.index()).push(*index));
                assert(outcomes(events@.push(event)) == outcomes(events@).push(outcome(event)));
                events.push(event);
            }
        }
        assert(order.take(order.len() as int) == order);
        self.tool_calls_by_index.clear();
        assert(self@ =~= Map::<usize, PendingCall>::empty());
        assert(lists_all(order, pending));
        events
    }

    /// The events for one chunk of a streamed completion. Text and thinking are
    /// told at once; tool calls are kept until a choice finishes.
    pub fn process_stream_response(&mut self, response: ZAiStreamResponse) -> (r: Vec<
        CompletionResult,
    >)
        ensures
            stream_step(old(self)@, response, final(self)@, outcomes(r@)),
    {
        let mut events: Vec<CompletionResult> = Vec::new();
        let ghost choices = response.choices@;
        let mut finished = false;
        let mut i: usize = 0;
        assert(outcomes(events@) =~= stream_choices_events(choices.take(0)));
        assert(all_deltas(choices.take(0)) =~= Seq::empty());
        while i < response.choices.len()
            invariant
                i <= choices.len(),
                choices == response.choices@,
                outcomes(events@) == stream_choices_events(choices.take(i as int)),
                self@ == pending_after(old(self)@, all_deltas(choices.take(i as int))),
                finished == any_finished(choices.take(i as int)),
            decreases choices.len() - i,
        {
            let choice = &response.choices[i];
            let ghost told = outcomes(events@);
            push_thinking(&mut events, &choice.delta.reasoning_content);
            if let Some(content) = &choice.delta.content {
                push_text(&mut events, content);
            }
            if let Some(deltas) = &choice.delta.tool_calls {
                self.add_deltas(deltas);
            }
            if let Some(finish_reason) = &choice.finish_reason {
                push_event(
                    &mut events,
                    LanguageModelCompletionEvent::Stop(stop_reason(finish_reason.as_str())),
                );
                finished = true;
            }
            proof {
                assert(outcomes(events@) =~= told + stream_choice_events(*choice));
                lemma_stream_choices_events_take(choices, i as int);
                lemma_all_deltas_take(choices, i as int);
                law_deltas_in_two_parts(
                    old(self)@,
                    all_deltas(choices.take(i as int)),
                    choice_deltas(*choice),
                );
                lemma_any_finished_take(choices, i as int);
            }
            i += 1;
        }
        assert(choices.take(i as int) == choices);
        if finished {
            let ghost told = outcomes(events@);
            let mut calls = self.drain_calls();
            let ghost call_outcomes = outcomes(calls@);
            events.append(&mut calls);
            assert(outcomes(events@) =~= told + call_outcomes);
        }
        push_usage(&mut events, &response.usage);
        events
    }

    /// The events for a completion that came in one piece, given the outcome of
    /// parsing it.
    pub fn process_response(&self, parsed: Result<ZAiResponse, String>) -> (r: Vec<
        CompletionResult,
    >)
        ensures
            outcomes(r@) == parsed_response_events(parsed),
    {
        let mut events: Vec<CompletionResult> = Vec::new();
        let response = match parsed {
            Ok(response) => response,
            Err(error) => {
                events.push(Err(parse_error(error.as_str())));
                return events;
            },
        };
        let ghost choices = response.choices@;
        let mut i: usize = 0;
        assert(outcomes(events@) =~= choices_events(choices.take(0)));
        while i < response.choices.len()
            invariant
                i <= choices.len(),
                choices == response.choices@,
                outcomes(events@) == choices_events(choices.take(i as int)),
            decreases choices.len() - i,
        {
            let choice = &response.choices[i];
            let ghost told = outcomes(events@);
            push_thinking(&mut events, &choice.message.reasoning_content);
            push_text(&mut events, &choice.message.content);
            push_response_calls(&mut events, &choice.message.tool_calls);
            proof {
                assert(outcomes(events@) =~= told + choice_events(*choice));
                lemma_choices_events_take(choices, i as int);
            }
            i += 1;
        }
        assert(choices.take(i as int) == choices);
        if response.choices.len() > 0 {
            let reason = match &response.choices[0].finish_reason {
                Some(finish_reason) => stop_reason(finish_reason.as_str()),
                None => StopReason::EndTurn,
            };
            push_event(&mut events, LanguageModelCompletionEvent::Stop(reason));
        }
        push_usage(&mut events, &response.usage);
        events
    }

    /// Does nothing; responses go to the other methods.
    pub fn map_event(&mut self, _event: ()) -> (r: Vec<CompletionResult>)
        ensures
            r@ == Seq::<CompletionResult>::empty(),
            *final(self) == *old(self),
    {
        Vec::new()
    }

    /// The events for a completion that came in one piece, given the outcome of
    /// parsing it.
    pub fn map_response(self, parsed: Result<ZAiResponse, String>) -> (r: Vec<CompletionResult>)
        ensures
            outcomes(r@) == parsed_response_events(parsed),
    {
        self.process_response(parsed)
    }

    /// The events for one element of a stream.
    pub fn map_element(
        &mut self,
        element: Result<StreamItem, LanguageModelCompletionError>,
    ) -> (r: Vec<CompletionResult>)
        ensures
            element_step(old(self)@, element, final(self)@, outcomes(r@)),
    {
        let mut events: Vec<CompletionResult> = Vec::new();
        assert(outcomes(events@) =~= Seq::empty());
        match element {
            Ok(item) => match stream_event(item.text.as_str()) {
                StreamEvent::Done => {
                    push_event(
                        &mut events,
                        LanguageModelCompletionEvent::Stop(StopReason::EndTurn),
                    );
                    assert(outcomes(events@) =~= seq![
                        OutcomeModel::Ok(EventModel::Stop(StopReason::EndTurn)),
                    ]);
                },
                StreamEvent::Empty => {},
                StreamEvent::Data(_) => {
                    if let Some(response) = item.stream {
                        events = self.process_stream_response(response);
                    } else if let Some(response) = item.response {
                        events = self.process_response(Ok(response));
                    }
                },
            },
            Err(error) => {
                proof {
                    lemma_outcomes_push(events@, Err(error));
                }
                events.push(Err(error));
                assert(outcomes(events@) =~= seq![OutcomeModel::Err(error@)]);
            },
        }
        events
    }

    /// The events for a whole stream.
    pub fn map_stream(
        self,
        events: Vec<Result<StreamItem, LanguageModelCompletionError>>,
    ) -> (r: Vec<CompletionResult>)
        ensures
            exists|after: Map<usize, PendingCall>|
                stream_run(self@, events@, after, outcomes(r@)),
    {
        let mut mapper = self;
        let ghost before = mapper@;
        let mut told: Vec<CompletionResult> = Vec::new();
        assert(outcomes(told@) =~= Seq::empty());
        assert(stream_run(before, events@.take(0), mapper@, outcomes(told@)));
        for element in it: events
            invariant
                it.seq() == events@,
                stream_run(before, events@.take(it.index()), mapper@, outcomes(told@)),
        {
            let ghost middle = mapper@;
            let ghost first = outcomes(told@);
            let mut more = mapper.map_element(element);
            let ghost rest = outcomes(more@);
            told.append(&mut more);
            assert(outcomes(told@) =~= first + rest);
            proof {
                assert(events@.take(it.index() + 1) == events@.take(it.index()).push(element));
                lemma_run_push(
                    before,
                    events@.take(it.index()),
                    middle,
                    first,
                    element,
                    mapper@,
                    rest,
                );
            }
        }
        assert(events@.take(events@.len() as int) == events@);
        told
    }
}

} // verus!
