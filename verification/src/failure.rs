//! The failures that a completion can end in.
use crate::chat::{ErrorModel, LanguageModelCompletionError};
use crate::text::concat;
use vstd::prelude::*;

verus! {

/// The name under which the provider is shown.
pub const PROVIDER_NAME: &'static str = "Z.AI";

/// The failure of the provider's service with this code and message.
pub open spec fn cloud_failure(code: Seq<char>, message: Seq<char>) -> ErrorModel {
    ErrorModel::CloudFailure { provider: PROVIDER_NAME@, code, message }
}

/// Makes the failure with this code and message.
pub fn failure(code: &str, message: String) -> (r: LanguageModelCompletionError)
    ensures
        r@ == cloud_failure(code@, message@),
{
    LanguageModelCompletionError::CloudFailure {
        provider: PROVIDER_NAME.to_string(),
        code: code.to_string(),
        message,
    }
}

/// A response of the service could not be parsed.
pub fn parse_error(error: &str) -> (r: LanguageModelCompletionError)
    ensures
        r@ == cloud_failure("parse_error"@, "Failed to parse Z.AI response: "@ + error@),
{
    failure("parse_error", concat("Failed to parse Z.AI response: ", error))
}

/// A request could not be turned into JSON.
pub fn serialization_error(error: &str) -> (r: LanguageModelCompletionError)
    ensures
        r@ == cloud_failure("serialization_error"@, "Failed to serialize request: "@ + error@),
{
    failure("serialization_error", concat("Failed to serialize request: ", error))
}

/// An HTTP request could not be put together.
pub fn http_request_error(error: &str) -> (r: LanguageModelCompletionError)
    ensures
        r@ == cloud_failure("http_request_error"@, "Failed to build HTTP request: "@ + error@),
{
    failure("http_request_error", concat("Failed to build HTTP request: ", error))
}

/// An HTTP request could not be sent, or was not answered.
pub fn http_error(error: &str) -> (r: LanguageModelCompletionError)
    ensures
        r@ == cloud_failure("http_error"@, error@),
{
    failure("http_error", error.to_string())
}

/// The body of an answer that refuses the request could not be read.
pub fn response_read_error(error: &str) -> (r: LanguageModelCompletionError)
    ensures
        r@ == cloud_failure("response_read_error"@, "Failed to read error response: "@ + error@),
{
    failure("response_read_error", concat("Failed to read error response: ", error))
}

/// The message for an answer that refuses the request: the one in its body if
/// it was found there, else its status and its body.
pub open spec fn refusal_message(
    status: Seq<char>,
    body: Seq<char>,
    message: Option<String>,
) -> Seq<char> {
    match message {
        Some(message) => message@,
        None => "API returned status "@ + status + ": "@ + body,
    }
}

/// The service refused the request. `message` is the one that its answer's body
/// holds, if it holds one.
pub fn api_error(status: &str, body: &str, message: Option<String>) -> (r:
    LanguageModelCompletionError)
    ensures
        r@ == cloud_failure("api_error"@, refusal_message(status@, body@, message)),
{
    match message {
        Some(message) => failure("api_error", message),
        None => failure(
            "api_error",
            "API returned status ".to_string().concat(status).concat(": ").concat(body),
        ),
    }
}

/// A line of a stream could not be read.
pub fn stream_read_error(error: &str) -> (r: LanguageModelCompletionError)
    ensures
        r@ == cloud_failure("stream_read_error"@, "Failed to read stream line: "@ + error@),
{
    failure("stream_read_error", concat("Failed to read stream line: ", error))
}

} // verus!
