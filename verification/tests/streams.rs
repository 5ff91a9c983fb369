use z_ai::chat::{
    CompletionResult, LanguageModelCompletionError, LanguageModelCompletionEvent,
    LanguageModelToolUse, StopReason, TokenUsage, ToolInput,
};
use z_ai::mapper::{stop_reason, StreamItem, ZAiEventMapper};
use z_ai::wire::{
    ZAiChoice, ZAiDelta, ZAiFunctionCallDelta, ZAiFunctionResponse, ZAiMessageResponse,
    ZAiResponse, ZAiStreamChoice, ZAiStreamResponse, ZAiToolCallDelta, ZAiToolCallResponse,
    ZAiUsage,
};

fn delta() -> ZAiDelta {
    ZAiDelta { role: None, content: None, reasoning_content: None, tool_calls: None }
}

fn chunk(choices: Vec<ZAiStreamChoice>) -> ZAiStreamResponse {
    ZAiStreamResponse {
        id: "1".to_string(),
        request_id: None,
        created: 0,
        model: "glm-4.6".to_string(),
        choices,
        usage: None,
        object_type: None,
    }
}

fn choice(delta: ZAiDelta, finish_reason: Option<&str>) -> ZAiStreamChoice {
    ZAiStreamChoice { index: 0, delta, finish_reason: finish_reason.map(|r| r.to_string()) }
}

fn saying(content: &str, finish_reason: Option<&str>) -> ZAiStreamChoice {
    choice(ZAiDelta { content: Some(content.to_string()), ..delta() }, finish_reason)
}

fn piece(
    index: usize,
    id: Option<&str>,
    name: Option<&str>,
    arguments: Option<&str>,
) -> ZAiToolCallDelta {
    ZAiToolCallDelta {
        index,
        id: id.map(|s| s.to_string()),
        function: Some(ZAiFunctionCallDelta {
            name: name.map(|s| s.to_string()),
            arguments: arguments.map(|s| s.to_string()),
        }),
        call_type: None,
    }
}

fn calling(pieces: Vec<ZAiToolCallDelta>, finish_reason: Option<&str>) -> ZAiStreamChoice {
    choice(ZAiDelta { tool_calls: Some(pieces), ..delta() }, finish_reason)
}

fn text(text: &str) -> CompletionResult {
    Ok(LanguageModelCompletionEvent::Text(text.to_string()))
}

fn thought(text: &str) -> CompletionResult {
    Ok(LanguageModelCompletionEvent::Thinking { text: text.to_string(), signature: None })
}

fn stop(reason: StopReason) -> CompletionResult {
    Ok(LanguageModelCompletionEvent::Stop(reason))
}

fn call(id: &str, name: &str, raw_input: &str, input: ToolInput) -> CompletionResult {
    Ok(LanguageModelCompletionEvent::ToolUse(LanguageModelToolUse {
        id: id.to_string(),
        name: name.to_string(),
        raw_input: raw_input.to_string(),
        input,
        is_input_complete: true,
    }))
}

fn parsed(text: &str) -> ToolInput {
    ToolInput::Parsed(serde_json::from_str(text).unwrap())
}

fn message(content: &str) -> ZAiMessageResponse {
    ZAiMessageResponse {
        role: "assistant".to_string(),
        content: content.to_string(),
        reasoning_content: None,
        tool_calls: None,
    }
}

fn response(choices: Vec<ZAiChoice>) -> ZAiResponse {
    ZAiResponse {
        id: "1".to_string(),
        request_id: "r".to_string(),
        created: 0,
        model: "glm-4.6".to_string(),
        choices,
        usage: None,
    }
}

fn whole_choice(message: ZAiMessageResponse, finish_reason: Option<&str>) -> ZAiChoice {
    ZAiChoice { index: 0, message, finish_reason: finish_reason.map(|r| r.to_string()) }
}

fn whole_call(id: &str, name: &str, arguments: serde_json::Value) -> ZAiToolCallResponse {
    ZAiToolCallResponse {
        id: id.to_string(),
        kind: "function".to_string(),
        function: ZAiFunctionResponse { name: name.to_string(), arguments },
    }
}

fn usage() -> ZAiUsage {
    ZAiUsage { prompt_tokens: 7, completion_tokens: 5, total_tokens: 12 }
}

fn usage_event() -> CompletionResult {
    Ok(LanguageModelCompletionEvent::UsageUpdate(TokenUsage {
        input_tokens: 7,
        output_tokens: 5,
        cache_creation_input_tokens: 0,
        cache_read_input_tokens: 0,
    }))
}

fn failure(code: &str, message: &str) -> LanguageModelCompletionError {
    LanguageModelCompletionError::CloudFailure {
        provider: "Z.AI".to_string(),
        code: code.to_string(),
        message: message.to_string(),
    }
}

fn item(
    text: &str,
    stream: Option<ZAiStreamResponse>,
    response: Option<ZAiResponse>,
) -> Result<StreamItem, LanguageModelCompletionError> {
    Ok(StreamItem { text: text.to_string(), stream, response })
}

#[test]
fn finish_reasons_are_mapped() {
    assert_eq!(stop_reason("stop"), StopReason::EndTurn);
    assert_eq!(stop_reason("tool_calls"), StopReason::ToolUse);
    assert_eq!(stop_reason("length"), StopReason::MaxTokens);
    assert_eq!(stop_reason("sensitive"), StopReason::EndTurn);
    assert_eq!(stop_reason("network_error"), StopReason::EndTurn);
    assert_eq!(stop_reason(""), StopReason::EndTurn);
}

#[test]
fn words_are_told_at_once() {
    let mut mapper = ZAiEventMapper::new();
    let both = choice(
        ZAiDelta {
            content: Some("hi".to_string()),
            reasoning_content: Some("hm".to_string()),
            ..delta()
        },
        None,
    );
    assert_eq!(mapper.process_stream_response(chunk(vec![both])), [thought("hm"), text("hi")]);
}

#[test]
fn empty_words_are_not_told() {
    let mut mapper = ZAiEventMapper::new();
    let empty = choice(
        ZAiDelta {
            content: Some(String::new()),
            reasoning_content: Some(String::new()),
            ..delta()
        },
        None,
    );
    assert_eq!(mapper.process_stream_response(chunk(vec![empty, choice(delta(), None)])), []);
}

#[test]
fn a_chunk_tells_the_tokens_used_last() {
    let mut mapper = ZAiEventMapper::new();
    let mut last = chunk(vec![saying("x", Some("length"))]);
    last.usage = Some(usage());
    assert_eq!(
        mapper.process_stream_response(last),
        [text("x"), stop(StopReason::MaxTokens), usage_event()]
    );
}

#[test]
fn a_call_is_put_together_from_its_pieces() {
    let mut mapper = ZAiEventMapper::new();
    let first = chunk(vec![calling(
        vec![piece(0, Some("call_1"), Some("grep"), Some("{\"a\""))],
        None,
    )]);
    assert_eq!(mapper.process_stream_response(first), []);
    let second = chunk(vec![calling(vec![piece(0, None, None, Some(": [1,"))], None)]);
    assert_eq!(mapper.process_stream_response(second), []);
    let third = chunk(vec![calling(vec![piece(0, None, None, Some(" 2]}"))], Some("tool_calls"))]);
    assert_eq!(
        mapper.process_stream_response(third),
        [
            stop(StopReason::ToolUse),
            call("call_1", "grep", "{\"a\": [1, 2]}", parsed("{\"a\":[1,2]}")),
        ]
    );
    let empty = chunk(vec![choice(delta(), Some("tool_calls"))]);
    assert_eq!(mapper.process_stream_response(empty), [stop(StopReason::ToolUse)]);
}

#[test]
fn arguments_stand_for_an_input() {
    let input = |arguments: Option<&str>| {
        let mut mapper = ZAiEventMapper::new();
        let pieces = vec![piece(3, Some("c"), Some("f"), arguments)];
        mapper
            .process_stream_response(chunk(vec![calling(pieces, Some("tool_calls"))]))
            .pop()
            .unwrap()
    };
    assert_eq!(input(None), call("c", "f", "", ToolInput::EmptyObject));
    assert_eq!(input(Some("")), call("c", "f", "", ToolInput::EmptyObject));
    assert_eq!(input(Some("{}")), call("c", "f", "{}", parsed("{}")));
    assert_eq!(input(Some("\"s\"")), call("c", "f", "\"s\"", parsed("\"s\"")));
    assert_eq!(
        input(Some("{\"a\":")),
        call("c", "f", "{\"a\":", ToolInput::Text("{\"a\":".to_string()))
    );
}

#[test]
fn the_last_id_and_the_last_name_count() {
    let mut mapper = ZAiEventMapper::new();
    let nameless = ZAiToolCallDelta { index: 0, id: Some("z".to_string()), function: None, call_type: None };
    let pieces = vec![
        piece(0, Some("x"), Some("f"), Some("1")),
        piece(0, Some("y"), Some("g"), None),
        nameless,
    ];
    assert_eq!(
        mapper.process_stream_response(chunk(vec![calling(pieces, Some("stop"))])),
        [stop(StopReason::EndTurn), call("z", "g", "1", parsed("1"))]
    );
}

#[test]
fn calls_are_kept_apart_and_each_is_told_once() {
    let mut mapper = ZAiEventMapper::new();
    let pieces = vec![
        piece(0, Some("a"), Some("f"), Some("[")),
        piece(7, Some("b"), Some("g"), Some("{")),
        piece(0, None, None, Some("]")),
        piece(7, None, None, Some("}")),
        piece(2, Some("c"), Some("h"), None),
    ];
    let mut events =
        mapper.process_stream_response(chunk(vec![calling(pieces, Some("tool_calls"))]));
    assert_eq!(events.remove(0), stop(StopReason::ToolUse));
    assert_eq!(events.len(), 3);
    for expected in [
        call("a", "f", "[]", parsed("[]")),
        call("b", "g", "{}", parsed("{}")),
        call("c", "h", "", ToolInput::EmptyObject),
    ] {
        assert!(events.contains(&expected), "{:?}", expected);
    }
}

#[test]
fn where_a_stream_is_cut_does_not_matter() {
    let first = || saying("a", None);
    let second = || calling(vec![piece(0, Some("c"), Some("f"), Some("{}"))], Some("tool_calls"));
    let mut cut = ZAiEventMapper::new();
    let mut events = cut.process_stream_response(chunk(vec![first()]));
    events.extend(cut.process_stream_response(chunk(vec![second()])));
    let mut whole = ZAiEventMapper::new();
    assert_eq!(whole.process_stream_response(chunk(vec![first(), second()])), events);
    assert_eq!(events.len(), 3);
}

#[test]
fn every_finished_choice_stops() {
    let mut mapper = ZAiEventMapper::new();
    assert_eq!(
        mapper.process_stream_response(chunk(vec![
            saying("a", Some("stop")),
            saying("b", Some("length")),
        ])),
        [text("a"), stop(StopReason::EndTurn), text("b"), stop(StopReason::MaxTokens)]
    );
}

#[test]
fn a_response_in_one_piece_is_told() {
    let mapper = ZAiEventMapper::new();
    let mut first = message("answer");
    first.reasoning_content = Some("because".to_string());
    first.tool_calls = Some(vec![
        whole_call("a", "f", serde_json::Value::String("{\"x\": \"\u{e9}\"}".to_string())),
        whole_call("b", "g", serde_json::from_str("{ \"x\" : 1 }").unwrap()),
        whole_call("c", "h", serde_json::Value::Null),
    ]);
    let mut answer = response(vec![
        whole_choice(first, Some("tool_calls")),
        whole_choice(message("other"), Some("length")),
    ]);
    answer.usage = Some(usage());
    let quoted = |text: &str| ToolInput::Text(text.to_string());
    assert_eq!(
        mapper.process_response(Ok(answer)),
        [
            thought("because"),
            text("answer"),
            call("a", "f", "{\"x\": \"\u{e9}\"}", quoted("{\"x\": \"\u{e9}\"}")),
            call("b", "g", "{\"x\":1}", quoted("{\"x\":1}")),
            call("c", "h", "null", quoted("null")),
            text("other"),
            stop(StopReason::ToolUse),
            usage_event(),
        ]
    );
}

#[test]
fn a_response_stops_once_if_it_has_a_choice() {
    let mapper = ZAiEventMapper::new();
    assert_eq!(mapper.process_response(Ok(response(Vec::new()))), []);
    assert_eq!(
        mapper.process_response(Ok(response(vec![whole_choice(message(""), None)]))),
        [stop(StopReason::EndTurn)]
    );
    assert_eq!(
        ZAiEventMapper::new().map_response(Ok(response(vec![
            whole_choice(message("a"), Some("length")),
            whole_choice(message("b"), Some("stop")),
        ]))),
        [text("a"), text("b"), stop(StopReason::MaxTokens)]
    );
}

#[test]
fn a_response_that_cannot_be_parsed_is_a_failure() {
    let mapper = ZAiEventMapper::new();
    assert_eq!(
        mapper.process_response(Err("expected value".to_string())),
        [Err(failure("parse_error", "Failed to parse Z.AI response: expected value"))]
    );
}

#[test]
fn one_chunk_is_told_as_the_whole() {
    let streamed = choice(
        ZAiDelta {
            content: Some("answer".to_string()),
            reasoning_content: Some("because".to_string()),
            ..delta()
        },
        Some("stop"),
    );
    let mut one_chunk = chunk(vec![streamed]);
    one_chunk.usage = Some(usage());
    let mut whole_message = message("answer");
    whole_message.reasoning_content = Some("because".to_string());
    let mut whole = response(vec![whole_choice(whole_message, Some("stop"))]);
    whole.usage = Some(usage());
    assert_eq!(
        ZAiEventMapper::new().process_stream_response(one_chunk),
        ZAiEventMapper::new().process_response(Ok(whole))
    );
}

#[test]
fn elements_of_a_stream_are_mapped() {
    let mut mapper = ZAiEventMapper::new();
    assert_eq!(mapper.map_element(item(" [DONE] ", None, None)), [stop(StopReason::EndTurn)]);
    assert_eq!(mapper.map_element(item("  ", None, None)), []);
    assert_eq!(mapper.map_element(item("what?", None, None)), []);
    assert_eq!(
        mapper.map_element(item("{..}", Some(chunk(vec![saying("a", None)])), None)),
        [text("a")]
    );
    let whole = || response(vec![whole_choice(message("b"), None)]);
    assert_eq!(
        mapper.map_element(item("{..}", None, Some(whole()))),
        [text("b"), stop(StopReason::EndTurn)]
    );
    assert_eq!(
        mapper.map_element(item("{..}", Some(chunk(vec![saying("a", None)])), Some(whole()))),
        [text("a")]
    );
    let broken = || failure("stream_read_error", "x");
    assert_eq!(mapper.map_element(Err(broken())), [Err(broken())]);
    assert_eq!(mapper.map_event(()), []);
}

#[test]
fn a_stream_is_mapped_element_by_element() {
    let elements = || {
        vec![
            item("{1}", Some(chunk(vec![saying("let me look", None)])), None),
            item(
                "{2}",
                Some(chunk(vec![calling(
                    vec![piece(0, Some("c"), Some("ls"), Some("{\"path\":"))],
                    None,
                )])),
                None,
            ),
            item("", None, None),
            item(
                "{3}",
                Some(chunk(vec![calling(
                    vec![piece(0, None, None, Some("\".\"}"))],
                    Some("tool_calls"),
                )])),
                None,
            ),
            item("[DONE]", None, None),
        ]
    };
    let expected = [
        text("let me look"),
        stop(StopReason::ToolUse),
        call("c", "ls", "{\"path\":\".\"}", parsed("{\"path\":\".\"}")),
        stop(StopReason::EndTurn),
    ];
    assert_eq!(ZAiEventMapper::new().map_stream(elements()), expected);
    let mut mapper = ZAiEventMapper::new();
    let mut events: Vec<CompletionResult> = Vec::new();
    for element in elements() {
        events.extend(mapper.map_element(element));
    }
    assert_eq!(events, expected);
}

#[test]
fn the_end_of_a_stream_tells_no_call_that_has_not_finished() {
    let pieces = vec![piece(0, Some("c"), Some("f"), Some("{}"))];
    let unfinished = vec![
        item("{1}", Some(chunk(vec![calling(pieces, None)])), None),
        item("[DONE]", None, None),
    ];
    assert_eq!(ZAiEventMapper::new().map_stream(unfinished), [stop(StopReason::EndTurn)]);
}
