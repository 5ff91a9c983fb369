//! One completion: what is asked of the service, and what its answer means.
use crate::chat::{ErrorModel, LanguageModelCompletionError, LanguageModelRequest};
use crate::failure::{
    api_error, cloud_failure, http_error, http_request_error, refusal_message,
    response_read_error, serialization_error, PROVIDER_NAME,
};
use crate::model::model_supports_thinking;
use crate::provider::{names_thinking, OfferedModel, ZAiLanguageModel, THINKING_SUFFIX};
use crate::request::{
    describes_all, into_z_ai, says_all, sent_messages, tool_choice_of, DEFAULT_TEMPERATURE_BITS,
};
use crate::text::{before_suffix, concat, strip_suffix, trim_end_slashes, without_end_slashes};
use crate::wire::{ChatThinking, ChatThinkingType, ZAiRequest};
use vstd::prelude::*;

verus! {

/// Where the service is, and the key that it asks for.
#[derive(Debug, PartialEq)]
pub struct Credentials {
    pub api_key: String,
    pub api_url: String,
}

/// The credentials in what the host found: an address, and a key if one is known.
/// The host finds nothing if its state is gone.
pub fn credentials(found: Option<(Option<String>, String)>) -> (r: Result<
    Credentials,
    LanguageModelCompletionError,
>)
    ensures
        match (found, r) {
            (Some((Some(api_key), api_url)), Ok(credentials)) => {
                &&& credentials.api_key == api_key
                &&& credentials.api_url == api_url
            },
            (Some((Some(_), _)), Err(_)) => false,
            (_, Ok(_)) => false,
            (_, Err(error)) => error@ == (ErrorModel::NoApiKey { provider: PROVIDER_NAME@ }),
        },
{
    match found {
        Some((Some(api_key), api_url)) => Ok(Credentials { api_key, api_url }),
        _ => Err(LanguageModelCompletionError::NoApiKey { provider: PROVIDER_NAME.to_string() }),
    }
}

/// The id under which the service knows the model that is offered as `id`.
pub open spec fn service_id(id: Seq<char>) -> Seq<char> {
    match before_suffix(id, THINKING_SUFFIX@) {
        Some(base) => base,
        None => id,
    }
}

/// Whether a request to `offer` turns thinking on.
pub open spec fn thinks(offer: OfferedModel, thinking_allowed: bool) -> bool {
    thinking_allowed && (names_thinking(offer.id) || model_supports_thinking(offer.model))
}

impl ZAiLanguageModel {
    /// The request to the service that asks this model for what `request` asks.
    pub fn service_request(&self, request: LanguageModelRequest) -> (r: ZAiRequest)
        ensures
            r.model@ == service_id(self@.id),
            says_all(r.messages@, sent_messages(request.messages@)),
            r.thinking == (if thinks(self@, request.thinking_allowed) {
                Some(ChatThinking { kind: ChatThinkingType::Enabled })
            } else {
                None
            }),
            r.temperature.bits == (match request.temperature {
                Some(temperature) => temperature.bits,
                None => DEFAULT_TEMPERATURE_BITS,
            }),
            r.max_tokens is None,
            r.stream,
            describes_all(r.tools@, request.tools@),
            r.tool_choice == tool_choice_of(request.tool_choice),
            r.stop == request.stop,
    {
        let base = strip_suffix(self.id.as_str(), THINKING_SUFFIX);
        let is_thinking_model = base.is_some();
        let thinking_enabled = request.thinking_allowed && (is_thinking_model
            || self.model.supports_thinking());
        let model_id = match base {
            Some(base) => base,
            None => self.id.as_str(),
        };
        into_z_ai(request, model_id, thinking_enabled)
    }
}

/// An HTTP request with a body of text.
#[derive(Debug, PartialEq)]
pub struct ChatHttpRequest {
    pub method: String,
    pub uri: String,
    pub headers: Vec<(String, String)>,
    pub body: String,
}

/// The address that a completion is asked of.
pub open spec fn completions_uri(api_url: Seq<char>) -> Seq<char> {
    without_end_slashes(api_url) + "/chat/completions"@
}

/// The headers of a request for a completion.
pub open spec fn completion_headers(api_key: Seq<char>) -> Seq<(Seq<char>, Seq<char>)> {
    seq![
        ("Authorization"@, "Bearer "@ + api_key),
        ("Content-Type"@, "application/json"@),
        ("Accept"@, "text/event-stream"@),
        ("Accept-Language"@, "en-US,en"@),
    ]
}

fn header(name: &str, value: &str) -> (r: (String, String))
    ensures
        (r.0@, r.1@) == (name@, value@),
{
    (name.to_string(), value.to_string())
}

impl Credentials {
    /// The HTTP request for a completion, given the outcome of turning the
    /// request to the service into JSON.
    pub fn http_request(&self, serialized: Result<String, String>) -> (r: Result<
        ChatHttpRequest,
        LanguageModelCompletionError,
    >)
        ensures
            match (serialized, r) {
                (Ok(body), Ok(request)) => {
                    &&& request.method@ == "POST"@
                    &&& request.uri@ == completions_uri(self.api_url@)
                    &&& request.headers@.map_values(|h: (String, String)| (h.0@, h.1@))
                        == completion_headers(self.api_key@)
                    &&& request.body == body
                },
                (Err(error), Err(failure)) => failure@ == cloud_failure(
                    "serialization_error"@,
                    "Failed to serialize request: "@ + error@,
                ),
                _ => false,
            },
    {
        let body = match serialized {
            Ok(body) => body,
            Err(error) => {
                return Err(serialization_error(error.as_str()));
            },
        };
        let authorization = concat("Bearer ", self.api_key.as_str());
        let headers: Vec<(String, String)> = vec![
            header("Authorization", authorization.as_str()),
            header("Content-Type", "application/json"),
            header("Accept", "text/event-stream"),
            header("Accept-Language", "en-US,en"),
        ];
        assert(headers@.map_values(|h: (String, String)| (h.0@, h.1@)) =~= completion_headers(
            self.api_key@,
        ));
        Ok(
            ChatHttpRequest {
                method: "POST".to_string(),
                uri: concat(trim_end_slashes(self.api_url.as_str()), "/chat/completions"),
                headers,
                body,
            },
        )
    }
}

/// What came of an HTTP request for a completion.
#[derive(Debug, PartialEq)]
pub enum Exchange {
    /// The request could not be put together.
    NotBuilt(String),
    /// The request could not be sent, or was not answered.
    NotSent(String),
    /// The answer's status is no success, and its body could not be read.
    RefusedUnread(String),
    /// The answer's status is no success. `message` is what the body gives as
    /// the service's error, if it does.
    Refused { status: String, body: String, message: Option<String> },
    /// The answer's status is a success.
    Accepted,
}

/// The failure that `exchange` is, unless the service has accepted the request.
pub open spec fn exchange_failure(exchange: Exchange) -> Option<ErrorModel> {
    match exchange {
        Exchange::NotBuilt(error) => Some(
            cloud_failure("http_request_error"@, "Failed to build HTTP request: "@ + error@),
        ),
        Exchange::NotSent(error) => Some(cloud_failure("http_error"@, error@)),
        Exchange::RefusedUnread(error) => Some(
            cloud_failure("response_read_error"@, "Failed to read error response: "@ + error@),
        ),
        Exchange::Refused { status, body, message } => Some(
            cloud_failure("api_error"@, refusal_message(status@, body@, message)),
        ),
        Exchange::Accepted => None,
    }
}

/// Succeeds if the service has accepted the request, so that its answer can be
/// streamed.
pub fn check_exchange(exchange: Exchange) -> (r: Result<(), LanguageModelCompletionError>)
    ensures
        match r {
            Ok(()) => exchange_failure(exchange) is None,
            Err(error) => exchange_failure(exchange) == Some(error@),
        },
{
    match exchange {
        Exchange::NotBuilt(error) => Err(http_request_error(error.as_str())),
        Exchange::NotSent(error) => Err(http_error(error.as_str())),
        Exchange::RefusedUnread(error) => Err(response_read_error(error.as_str())),
        Exchange::Refused { status, body, message } => Err(
            api_error(status.as_str(), body.as_str(), message),
        ),
        Exchange::Accepted => Ok(()),
    }
}

} // verus!
