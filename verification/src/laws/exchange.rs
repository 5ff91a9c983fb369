//! Laws of the exchange with the service: what it is asked, and what is made of
//! its answer.
use super::text::{law_base_and_suffix, law_only_end_slashes_go};
use crate::chat::{ErrorModel, LanguageModelCompletionError};
use crate::completion::{
    check_exchange, credentials, exchange_failure, service_id, thinks, ChatHttpRequest,
    Credentials, Exchange,
};
use crate::configuration::{
    panel, ConfigurationPanel, ConfigurationViewTargetAgent, Instruction, PanelModel, State,
    ZAiConfigurationView,
};
use crate::model::{model_supports_thinking, ZAiModel};
use crate::provider::{OfferedModel, THINKING_SUFFIX};
use crate::sse::{line_data, read_line};
use vstd::prelude::*;

verus! {

/// A completion needs a key: without one it fails at once and names the
/// provider, and with one both the key and the address are used as they are.
pub proof fn law_key_is_needed(
    found: Option<(Option<String>, String)>,
    r: Result<Credentials, LanguageModelCompletionError>,
)
    requires
        call_ensures(credentials, (found,), r),
    ensures
        found matches Some((Some(key), url)) ==> {
            &&& r matches Ok(known)
            &&& known.api_key@ == key@
            &&& known.api_url@ == url@
        },
        found is None ==> r is Err,
        found matches Some((None, _)) ==> r is Err,
        r matches Err(error) ==> error@ == (ErrorModel::NoApiKey { provider: "Z.AI"@ }),
{
}

/// Each way in which an exchange can fail gives a failure with a code of its
/// own, which names the provider and quotes the cause in full.
pub proof fn law_failures_quote_their_cause(exchange: Exchange)
    ensures
        exchange matches Exchange::NotBuilt(cause) ==> exchange_failure(exchange) == Some(
            ErrorModel::CloudFailure {
                provider: "Z.AI"@,
                code: "http_request_error"@,
                message: "Failed to build HTTP request: "@ + cause@,
            },
        ),
        exchange matches Exchange::NotSent(cause) ==> exchange_failure(exchange) == Some(
            ErrorModel::CloudFailure {
                provider: "Z.AI"@,
                code: "http_error"@,
                message: cause@,
            },
        ),
        exchange matches Exchange::RefusedUnread(cause) ==> exchange_failure(exchange) == Some(
            ErrorModel::CloudFailure {
                provider: "Z.AI"@,
                code: "response_read_error"@,
                message: "Failed to read error response: "@ + cause@,
            },
        ),
        exchange is Accepted ==> exchange_failure(exchange) is None,
{
}

/// A request that the service refuses is answered with the service's own message
/// if its answer holds one, and else with the status and the whole body.
pub proof fn law_refusal_is_told(status: String, body: String, message: Option<String>)
    ensures
        ({
            let failure = exchange_failure(Exchange::Refused { status, body, message });
            &&& failure is Some
            &&& failure->0 matches ErrorModel::CloudFailure { provider, code, message: told }
            &&& provider == "Z.AI"@
            &&& code == "api_error"@
            &&& message matches Some(message) ==> told == message@
            &&& message is None ==> told == "API returned status "@ + status@ + ": "@ + body@
        }),
{
}

/// Only an exchange that was accepted goes on, and each other gives its failure.
pub proof fn law_only_accepted_goes_on(
    exchange: Exchange,
    r: Result<(), LanguageModelCompletionError>,
)
    requires
        call_ensures(check_exchange, (exchange,), r),
    ensures
        r is Ok <==> exchange is Accepted,
        r matches Err(error) ==> exchange_failure(exchange) == Some(error@),
{
}

/// A completion is posted to the path for completions under the service's
/// address, without the slashes at its end, with the key and the body as they
/// are. A request that could not be turned into JSON is not posted.
pub proof fn law_completion_is_posted(
    known: &Credentials,
    base: Seq<char>,
    slashes: Seq<char>,
    serialized: Result<String, String>,
    r: Result<ChatHttpRequest, LanguageModelCompletionError>,
)
    requires
        call_ensures(Credentials::http_request, (known, serialized), r),
        known.api_url@ == base + slashes,
        base.len() > 0 ==> base.last() != '/',
        forall|i: int| 0 <= i < slashes.len() ==> #[trigger] slashes[i] == '/',
    ensures
        r is Ok <==> serialized is Ok,
        r matches Ok(request) ==> {
            &&& request.method@ == "POST"@
            &&& request.uri@ == base + "/chat/completions"@
            &&& request.body@ == serialized->Ok_0@
            &&& request.headers@.len() == 4
            &&& request.headers@[0].0@ == "Authorization"@
            &&& request.headers@[0].1@ == "Bearer "@ + known.api_key@
            &&& request.headers@[1].0@ == "Content-Type"@
            &&& request.headers@[1].1@ == "application/json"@
            &&& request.headers@[2].0@ == "Accept"@
            &&& request.headers@[2].1@ == "text/event-stream"@
            &&& request.headers@[3].0@ == "Accept-Language"@
            &&& request.headers@[3].1@ == "en-US,en"@
        },
        r matches Err(error) ==> error@ == (ErrorModel::CloudFailure {
            provider: "Z.AI"@,
            code: "serialization_error"@,
            message: "Failed to serialize request: "@ + serialized->Err_0@,
        }),
{
    law_only_end_slashes_go(base, slashes);
    assert(known.api_url@ == base + slashes);
    if r is Ok {
        let headers = r->Ok_0.headers@;
        let pairs = headers.map_values(|h: (String, String)| (h.0@, h.1@));
        assert(pairs.len() == headers.len());
        assert(pairs[0] == (headers[0].0@, headers[0].1@));
        assert(pairs[1] == (headers[1].0@, headers[1].1@));
        assert(pairs[2] == (headers[2].0@, headers[2].1@));
        assert(pairs[3] == (headers[3].0@, headers[3].1@));
    }
}

/// Reading a line gives the data in it if it carries any, and a line that cannot
/// be read gives a failure that quotes the cause in full.
pub proof fn law_line_is_read(
    line: Result<String, String>,
    r: Option<Result<String, LanguageModelCompletionError>>,
)
    requires
        call_ensures(read_line, (line,), r),
    ensures
        line matches Ok(text) ==> {
            &&& r is Some <==> line_data(text@) is Some
            &&& r is Some ==> r->0 is Ok && r->0->Ok_0@ == line_data(text@)->0
        },
        line matches Err(cause) ==> {
            &&& r matches Some(Err(error))
            &&& error@ == (ErrorModel::CloudFailure {
                provider: "Z.AI"@,
                code: "stream_read_error"@,
                message: "Failed to read stream line: "@ + cause@,
            })
        },
{
}

/// The service knows a model by the id under which it is offered, without the
/// ending that says that it thinks. Of an ending that occurs twice only one goes.
pub proof fn law_service_knows_base_id(id: Seq<char>, base: Seq<char>)
    ensures
        id == base + "-thinking"@ ==> service_id(id) == base,
        !"-thinking"@.is_suffix_of(id) ==> service_id(id) == id,
{
    law_base_and_suffix(id, base, THINKING_SUFFIX@);
}

/// A request turns thinking on only where it allows it, and then exactly if the
/// model can think or its id says so.
pub proof fn law_thinking_is_asked_for(
    id: Seq<char>,
    base: Seq<char>,
    model: ZAiModel,
    allowed: bool,
)
    ensures
        !thinks(OfferedModel { id, model }, false),
        model_supports_thinking(model) ==> thinks(OfferedModel { id, model }, allowed) == allowed,
        id == base + "-thinking"@ ==> thinks(OfferedModel { id, model }, allowed) == allowed,
        !"-thinking"@.is_suffix_of(id) && !model_supports_thinking(model) ==> !thinks(
            OfferedModel { id, model },
            allowed,
        ),
{
    law_base_and_suffix(id, base, THINKING_SUFFIX@);
}

/// While the key is looked for, the page says so. Then it asks for a key unless
/// there is one that is not from the environment, and names the agent that the
/// key is for.
pub proof fn law_page_shows(state: State, target_agent: ConfigurationViewTargetAgent, loading: bool)
    ensures
        ({
            let shown = panel(ZAiConfigurationView { state, target_agent, loading });
            &&& shown is Loading <==> loading
            &&& shown is Configured <==> !loading && state.has_key && !state.is_from_env_var
            &&& shown is Loading ==> shown->Loading_label == "Loading credentials..."@
            &&& shown matches PanelModel::Editor { heading, instructions, note } ==> {
                &&& target_agent matches ConfigurationViewTargetAgent::Other(name) ==> heading
                    == "To use "@ + name@ + ", you need to add an API key. Follow these steps:"@
                &&& target_agent is ZedAgent ==> heading == "To use "@ + "Zed's agent with Z.AI"@
                    + ", you need to add an API key. Follow these steps:"@
                &&& instructions.len() == 2
                &&& instructions[0].text == "Create one by visiting"@
                &&& instructions[0].link == Some(
                    ("Z.AI's settings"@, "https://z.ai/manage-apikey/apikey-list"@),
                )
                &&& instructions[1].text
                    == "Paste your API key below and hit enter to start using the agent"@
                &&& instructions[1].link is None
                &&& note
                    == "You can also assign the Z_AI_API_KEY environment variable and restart Zed."@
            }
            &&& shown matches PanelModel::Configured { label, removable } ==> label
                == "API key configured"@ && removable
        }),
{
}

/// A field that is empty stores nothing, and any other is stored as it is. The
/// page has that field exactly if it asks for a key.
pub proof fn law_empty_field_stores_nothing(
    view: &ZAiConfigurationView,
    text: String,
    stored: Option<String>,
    asks: bool,
)
    requires
        call_ensures(ZAiConfigurationView::save_api_key, (view, text), stored),
        call_ensures(ZAiConfigurationView::should_render_editor, (view,), asks),
    ensures
        stored is None <==> text@.len() == 0,
        stored matches Some(key) ==> key@ == text@,
        asks <==> !view.state.has_key || view.state.is_from_env_var,
        !view.loading ==> (asks <==> panel(*view) is Editor),
{
}

/// What the page draws is what it is to show, text by text.
pub proof fn law_page_is_drawn(view: &ZAiConfigurationView, drawn: ConfigurationPanel, i: int)
    requires
        call_ensures(ZAiConfigurationView::render, (view,), drawn),
    ensures
        panel(*view) matches PanelModel::Loading { label } ==> drawn is Loading
            && drawn->Loading_label@ == label,
        panel(*view) matches PanelModel::Configured { label, removable } ==> drawn is Configured
            && drawn->Configured_label@ == label && drawn->removable == removable,
        panel(*view) matches PanelModel::Editor { heading, instructions, note } ==> {
            &&& drawn is Editor
            &&& drawn->heading@ == heading
            &&& drawn->note@ == note
            &&& drawn->instructions@.len() == instructions.len()
            &&& 0 <= i < instructions.len() ==> {
                let step = drawn->instructions@[i];
                &&& step.text@ == instructions[i].text
                &&& step.link is Some == instructions[i].link is Some
                &&& step.link is Some ==> instructions[i].link == Some(
                    (step.link->0.label@, step.link->0.url@),
                )
            }
        },
{
    if drawn is Editor {
        let steps = drawn->instructions@;
        let held = steps.map_values(|step: Instruction| step@);
        assert(held.len() == steps.len());
        if 0 <= i < steps.len() {
            assert(held[i] == steps[i]@);
        }
    }
}

} // verus!
