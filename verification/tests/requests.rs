use z_ai::chat::{
    LanguageModelCompletionError, LanguageModelRequest, LanguageModelRequestMessage,
    LanguageModelRequestTool, LanguageModelToolChoice, MessageContent, RequestToolResult,
    RequestToolUse, Role, Temperature,
};
use z_ai::completion::{check_exchange, credentials, Credentials, Exchange};
use z_ai::model::ZAiModel;
use z_ai::provider::{ZAiLanguageModel, ZAiLanguageModelProvider, ZAiSettings};
use z_ai::request::{default_temperature, into_z_ai};
use z_ai::wire::{ChatThinking, ChatThinkingType, ZAiContent, ZAiMessage, ZAiRole, ZAiToolChoice};

fn message(role: Role, content: Vec<MessageContent>) -> LanguageModelRequestMessage {
    LanguageModelRequestMessage { role, content, contents_empty: false }
}

fn text(text: &str) -> MessageContent {
    MessageContent::Text(text.to_string())
}

fn thinking(text: &str) -> MessageContent {
    MessageContent::Thinking { text: text.to_string() }
}

fn tool_use() -> MessageContent {
    MessageContent::ToolUse(RequestToolUse {
        name: "grep".to_string(),
        input: serde_json::from_str("{ \"a\" : [1, 2] }").unwrap(),
    })
}

fn request(messages: Vec<LanguageModelRequestMessage>) -> LanguageModelRequest {
    LanguageModelRequest {
        messages,
        tools: Vec::new(),
        tool_choice: None,
        stop: Vec::new(),
        temperature: None,
        thinking_allowed: true,
    }
}

fn sent(role: ZAiRole, text: &str) -> ZAiMessage {
    ZAiMessage { role, content: ZAiContent::Text(text.to_string()) }
}

fn model(id: &str, supports_thinking: bool) -> ZAiLanguageModel {
    ZAiLanguageModel {
        id: id.to_string(),
        model: ZAiModel::Custom {
            name: id.to_string(),
            display_name: None,
            max_tokens: 1,
            max_output_tokens: None,
            supports_thinking,
        },
    }
}

fn failure(code: &str, message: &str) -> LanguageModelCompletionError {
    LanguageModelCompletionError::CloudFailure {
        provider: "Z.AI".to_string(),
        code: code.to_string(),
        message: message.to_string(),
    }
}

#[test]
fn messages_go_as_text_in_order() {
    let out = into_z_ai(
        request(vec![
            message(Role::System, vec![text("be brief")]),
            message(Role::User, vec![text("look"), MessageContent::Image, text(""), text("here")]),
            message(Role::Assistant, vec![thinking("hm"), tool_use(), text("done")]),
        ]),
        "glm-4.6",
        false,
    );
    assert_eq!(
        out.messages,
        [
            sent(ZAiRole::System, "be brief"),
            sent(ZAiRole::User, "look here"),
            sent(ZAiRole::Assistant, "hm done"),
        ]
    );
}

#[test]
fn messages_without_words_are_not_sent() {
    let mut blank = message(Role::User, vec![text("  ")]);
    blank.contents_empty = true;
    let out = into_z_ai(
        request(vec![
            blank,
            message(Role::User, Vec::new()),
            message(Role::User, vec![text(""), thinking("")]),
            message(Role::Assistant, vec![tool_use()]),
            message(
                Role::User,
                vec![
                    MessageContent::ToolResult(RequestToolResult { debug_len: 5 }),
                    MessageContent::RedactedThinking("secret".to_string()),
                ],
            ),
            message(Role::User, vec![text("  ")]),
        ]),
        "glm-4.6",
        false,
    );
    assert_eq!(out.messages, [sent(ZAiRole::User, "  ")]);
}

#[test]
fn messages_are_sent_each_for_itself() {
    let first = || vec![message(Role::User, vec![text("a"), text("b")]), message(Role::User, vec![])];
    let second = || vec![message(Role::Assistant, vec![thinking("c")])];
    let mut both = into_z_ai(request(first()), "m", false).messages;
    both.extend(into_z_ai(request(second()), "m", false).messages);
    let mut messages = first();
    messages.extend(second());
    assert_eq!(into_z_ai(request(messages), "m", false).messages, both);
    assert_eq!(both.len(), 2);
}

#[test]
fn tools_are_described() {
    let schema: serde_json::Value = serde_json::from_str("{\"type\":\"object\"}").unwrap();
    let mut with_tools = request(Vec::new());
    with_tools.tools.push(LanguageModelRequestTool {
        name: "grep".to_string(),
        description: "finds".to_string(),
        input_schema: schema.clone(),
    });
    with_tools.tools.push(LanguageModelRequestTool {
        name: "ls".to_string(),
        description: String::new(),
        input_schema: serde_json::Value::Null,
    });
    let tools = into_z_ai(with_tools, "m", false).tools;
    assert_eq!(tools.len(), 2);
    assert_eq!(tools[0].kind, "function");
    assert_eq!(tools[0].function.name, "grep");
    assert_eq!(tools[0].function.description, "finds");
    assert_eq!(tools[0].function.parameters, schema);
    assert_eq!(tools[1].function.name, "ls");
}

#[test]
fn tool_choices_are_mapped() {
    let choose = |choice: Option<LanguageModelToolChoice>| {
        let mut request = request(Vec::new());
        request.tool_choice = choice;
        into_z_ai(request, "m", false).tool_choice
    };
    assert_eq!(choose(None), None);
    assert_eq!(choose(Some(LanguageModelToolChoice::Auto)), Some(ZAiToolChoice::Auto));
    assert_eq!(choose(Some(LanguageModelToolChoice::Never)), Some(ZAiToolChoice::Never));
    assert_eq!(choose(Some(LanguageModelToolChoice::Other)), Some(ZAiToolChoice::Auto));
}

#[test]
fn the_rest_of_a_request_is_set() {
    let mut asked = request(Vec::new());
    asked.stop = vec!["END".to_string()];
    asked.temperature = Some(Temperature { bits: 0.25f32.to_bits() });
    let out = into_z_ai(asked, "glm-4.5", true);
    assert_eq!(out.model, "glm-4.5");
    assert_eq!(out.stop, ["END"]);
    assert_eq!(f32::from_bits(out.temperature.bits), 0.25);
    assert_eq!(out.thinking, Some(ChatThinking { kind: ChatThinkingType::Enabled }));
    assert_eq!(out.max_tokens, None);
    assert!(out.stream);
    let plain = into_z_ai(request(Vec::new()), "glm-4.5", false);
    assert_eq!(plain.thinking, None);
    assert_eq!(f32::from_bits(plain.temperature.bits), 1.0);
    assert_eq!(f32::from_bits(default_temperature().bits), 1.0);
}

#[test]
fn thinking_is_turned_on_where_it_is_allowed() {
    let ask = |id: &str, supports: bool, allowed: bool| {
        let mut request = request(Vec::new());
        request.thinking_allowed = allowed;
        let out = model(id, supports).service_request(request);
        (out.model, out.thinking.is_some())
    };
    assert_eq!(ask("m", true, true), ("m".to_string(), true));
    assert_eq!(ask("m", false, true), ("m".to_string(), false));
    assert_eq!(ask("m-thinking", false, true), ("m".to_string(), true));
    assert_eq!(ask("m-thinking", true, false), ("m".to_string(), false));
    assert_eq!(ask("m-thinking-thinking", false, true), ("m-thinking".to_string(), true));
}

#[test]
fn tokens_are_estimated_from_the_length() {
    let model = model("m", false);
    let asked = request(vec![
        message(Role::User, vec![text("\u{e9}\u{e9}"), MessageContent::Image]),
        message(
            Role::User,
            vec![
                thinking("abc"),
                MessageContent::RedactedThinking("xy".to_string()),
                tool_use(),
                MessageContent::ToolResult(RequestToolResult { debug_len: 30 }),
            ],
        ),
    ]);
    // The input of the tool call counts as {"a":[1,2]}.
    let total = 4 + 1000 + 3 + 2 + (4 + 11) + 30;
    assert_eq!(model.count_tokens(&asked), total / 4);
    assert_eq!(model.try_count_tokens(&asked), Some(263));
    assert_eq!(model.count_tokens(&request(Vec::new())), 0);
}

#[test]
fn an_estimate_that_does_not_fit_is_none() {
    let model = model("m", false);
    let huge = || MessageContent::ToolResult(RequestToolResult { debug_len: usize::MAX });
    let fits = request(vec![message(Role::User, vec![huge()])]);
    assert_eq!(model.try_count_tokens(&fits), Some((usize::MAX / 4) as u64));
    let item = request(vec![message(Role::User, vec![huge(), text("a")])]);
    assert_eq!(model.try_count_tokens(&item), None);
    let messages = request(vec![
        message(Role::User, vec![huge()]),
        message(Role::User, vec![MessageContent::Image]),
    ]);
    assert_eq!(model.try_count_tokens(&messages), None);
}

#[test]
fn a_completion_needs_a_key() {
    let found = Some((Some("key".to_string()), "url".to_string()));
    let known = credentials(found).unwrap();
    assert_eq!((known.api_key, known.api_url), ("key".to_string(), "url".to_string()));
    let no_key = LanguageModelCompletionError::NoApiKey { provider: "Z.AI".to_string() };
    assert_eq!(credentials(Some((None, "url".to_string()))).unwrap_err(), no_key);
    assert_eq!(credentials(None).unwrap_err(), no_key);
}

#[test]
fn http_requests_are_put_together() {
    let known = |api_url: &str| Credentials {
        api_key: "k".to_string(),
        api_url: api_url.to_string(),
    };
    let request = known("https://host/v4//").http_request(Ok("{}".to_string())).unwrap();
    assert_eq!(request.method, "POST");
    assert_eq!(request.uri, "https://host/v4/chat/completions");
    assert_eq!(request.body, "{}");
    let headers: Vec<(&str, &str)> =
        request.headers.iter().map(|(name, value)| (name.as_str(), value.as_str())).collect();
    assert_eq!(
        headers,
        [
            ("Authorization", "Bearer k"),
            ("Content-Type", "application/json"),
            ("Accept", "text/event-stream"),
            ("Accept-Language", "en-US,en"),
        ]
    );
    let same = known("https://host/v4").http_request(Ok("{}".to_string())).unwrap();
    assert_eq!(same, request);
}

#[test]
fn a_request_that_cannot_be_serialized_fails() {
    let known = Credentials { api_key: "k".to_string(), api_url: "u".to_string() };
    assert_eq!(
        known.http_request(Err("boom".to_string())).unwrap_err(),
        failure("serialization_error", "Failed to serialize request: boom")
    );
}

#[test]
fn only_accepted_requests_are_streamed() {
    assert_eq!(check_exchange(Exchange::Accepted), Ok(()));
    assert_eq!(
        check_exchange(Exchange::NotBuilt("bad uri".to_string())),
        Err(failure("http_request_error", "Failed to build HTTP request: bad uri"))
    );
    assert_eq!(
        check_exchange(Exchange::NotSent("no route".to_string())),
        Err(failure("http_error", "no route"))
    );
    assert_eq!(
        check_exchange(Exchange::RefusedUnread("cut".to_string())),
        Err(failure("response_read_error", "Failed to read error response: cut"))
    );
    assert_eq!(
        check_exchange(Exchange::Refused {
            status: "401 Unauthorized".to_string(),
            body: "{}".to_string(),
            message: Some("bad key".to_string()),
        }),
        Err(failure("api_error", "bad key"))
    );
    assert_eq!(
        check_exchange(Exchange::Refused {
            status: "500 Internal Server Error".to_string(),
            body: "oops".to_string(),
            message: None,
        }),
        Err(failure("api_error", "API returned status 500 Internal Server Error: oops"))
    );
}

#[test]
fn lengths_add_up() {
    let model = model("m", false);
    let first = || message(Role::User, vec![text("12345678"), MessageContent::Image]);
    let second = || message(Role::Assistant, vec![thinking("1234"), tool_use()]);
    let (a, b) = (
        model.count_tokens(&request(vec![first()])),
        model.count_tokens(&request(vec![second()])),
    );
    assert_eq!((a, b), (252, 4));
    // 1008 and 19 bytes.
    assert_eq!(model.count_tokens(&request(vec![first(), second()])), 256);
}

#[test]
fn addresses_have_no_double_slash() {
    for api_url in ["http://h", "http://h/", "http://h/a//", ""] {
        let known = Credentials { api_key: String::new(), api_url: api_url.to_string() };
        let uri = known.http_request(Ok(String::new())).unwrap().uri;
        assert_eq!(uri, format!("{}/chat/completions", api_url.trim_end_matches('/')));
        assert!(!uri.ends_with("//chat/completions"));
    }
}

#[test]
fn both_offers_of_a_model_ask_for_it() {
    let provider = ZAiLanguageModelProvider::new(ZAiSettings::default());
    for offer in provider.provided_models() {
        let asked = offer.service_request(request(Vec::new()));
        assert_eq!(asked.model, offer.model.id());
        assert!(asked.thinking.is_some());
        let mut quiet = request(Vec::new());
        quiet.thinking_allowed = false;
        assert_eq!(offer.service_request(quiet).thinking, None);
    }
}
