//! The models that the provider offers, and what the host asks of each.
use crate::chat::LanguageModelToolChoice;
use crate::failure::PROVIDER_NAME;
use crate::model::{
    builtin_models, model_display_name, model_id, model_max_output_tokens, model_max_tokens,
    model_supports_thinking, ZAiModel,
};
use crate::text::{concat, ends_with};
use vstd::prelude::*;

verus! {

/// The id of the provider.
pub const PROVIDER_ID: &'static str = "z_ai";

/// The service's address, unless the settings name another.
pub const Z_AI_API_URL: &'static str = "https://api.z.ai/api/coding/paas/v4";

/// The environment variable that can hold the API key.
pub const API_KEY_ENV_VAR_NAME: &'static str = "Z_AI_API_KEY";

/// The number of requests to one model that may run at a time.
pub const REQUEST_LIMIT: usize = 4;

/// What the id of a model ends with if it is offered with thinking.
pub const THINKING_SUFFIX: &'static str = "-thinking";

/// A model that the settings describe.
#[derive(Clone, Debug, PartialEq)]
pub struct ZAiAvailableModel {
    pub name: String,
    pub display_name: Option<String>,
    pub max_tokens: u64,
    pub max_output_tokens: Option<u64>,
    pub supports_thinking: bool,
}

/// The provider's settings.
#[derive(Clone, Debug, PartialEq)]
pub struct ZAiSettings {
    pub api_url: String,
    pub available_models: Vec<ZAiAvailableModel>,
}

/// A model that is offered, under its id, to the host.
#[derive(Debug, PartialEq)]
pub struct ZAiLanguageModel {
    pub id: String,
    pub model: ZAiModel,
}

/// What a `ZAiLanguageModel` holds.
pub struct OfferedModel {
    pub id: Seq<char>,
    pub model: ZAiModel,
}

impl View for ZAiLanguageModel {
    type V = OfferedModel;

    open spec fn view(&self) -> OfferedModel {
        OfferedModel { id: self.id@, model: self.model }
    }
}

/// `model` as it is offered without thinking in its id.
pub open spec fn plain_offer(model: ZAiModel) -> OfferedModel {
    OfferedModel { id: model_id(model), model }
}

/// `model` as it is offered with thinking in its id.
pub open spec fn thinking_offer(model: ZAiModel) -> OfferedModel {
    OfferedModel { id: model_id(model) + THINKING_SUFFIX@, model }
}

/// The ways in which `model` is offered: a model that can think is offered twice.
pub open spec fn offers(model: ZAiModel) -> Seq<OfferedModel> {
    if model_supports_thinking(model) {
        seq![plain_offer(model), thinking_offer(model)]
    } else {
        seq![plain_offer(model)]
    }
}

/// The model that `available` describes.
pub open spec fn configured_model(available: ZAiAvailableModel) -> ZAiModel {
    ZAiModel::Custom {
        name: available.name,
        display_name: available.display_name,
        max_tokens: available.max_tokens,
        max_output_tokens: available.max_output_tokens,
        supports_thinking: available.supports_thinking,
    }
}

/// The models that are offered: those of the settings, or those that the
/// service itself names if the settings have none.
pub open spec fn listed_models(settings: ZAiSettings) -> Seq<ZAiModel> {
    if settings.available_models@.len() == 0 {
        builtin_models()
    } else {
        settings.available_models@.map_values(
            |available: ZAiAvailableModel| configured_model(available),
        )
    }
}

/// All that is offered.
pub open spec fn all_offers(models: Seq<ZAiModel>) -> Seq<OfferedModel> {
    models.flat_map(|model: ZAiModel| offers(model))
}

/// The address that `settings` give: their own, or the usual one if it is empty.
pub open spec fn api_url_of(settings: ZAiSettings) -> Seq<char> {
    if settings.api_url@.len() == 0 {
        Z_AI_API_URL@
    } else {
        settings.api_url@
    }
}

impl Default for ZAiSettings {
    fn default() -> (r: Self)
        ensures
            r.api_url@ == Seq::<char>::empty(),
            r.available_models@ == Seq::<ZAiAvailableModel>::empty(),
    {
        ZAiSettings { api_url: String::new(), available_models: Vec::new() }
    }
}

/// The model that `available` describes.
fn configure(available: &ZAiAvailableModel) -> (r: ZAiModel)
    ensures
        r == configured_model(*available),
{
    ZAiModel::Custom {
        name: available.name.clone(),
        display_name: match &available.display_name {
            Some(display_name) => Some(display_name.clone()),
            None => None,
        },
        max_tokens: available.max_tokens,
        max_output_tokens: available.max_output_tokens,
        supports_thinking: available.supports_thinking,
    }
}

/// The provider, with the settings that hold at the moment.
#[derive(Debug, PartialEq)]
pub struct ZAiLanguageModelProvider {
    pub settings: ZAiSettings,
}

impl ZAiLanguageModelProvider {
    /// The provider with these settings.
    pub fn new(settings: ZAiSettings) -> (r: Self)
        ensures
            r.settings == settings,
    {
        ZAiLanguageModelProvider { settings }
    }

    /// The id of the provider.
    pub fn id(&self) -> (r: &'static str)
        ensures
            r@ == PROVIDER_ID@,
    {
        PROVIDER_ID
    }

    /// The name under which the provider is shown.
    pub fn name(&self) -> (r: &'static str)
        ensures
            r@ == PROVIDER_NAME@,
    {
        PROVIDER_NAME
    }

    /// The service's address.
    pub fn api_url(&self) -> (r: String)
        ensures
            r@ == api_url_of(self.settings),
    {
        if self.settings.api_url.as_str().is_empty() {
            Z_AI_API_URL.to_string()
        } else {
            self.settings.api_url.clone()
        }
    }

    /// Offers `model`.
    pub fn create_language_model(&self, model: ZAiModel) -> (r: ZAiLanguageModel)
        ensures
            r@ == plain_offer(model),
    {
        ZAiLanguageModel { id: model.id().to_string(), model }
    }

    /// Offers `model` with thinking in its id.
    pub fn create_thinking_model(&self, model: ZAiModel) -> (r: ZAiLanguageModel)
        ensures
            r@ == thinking_offer(model),
    {
        ZAiLanguageModel { id: concat(model.id(), THINKING_SUFFIX), model }
    }

    /// The models that the settings list, or else those of the service itself.
    fn list_models(&self) -> (r: Vec<ZAiModel>)
        ensures
            r@ == listed_models(self.settings),
    {
        if self.settings.available_models.len() == 0 {
            return ZAiModel::builtin();
        }
        let ghost all = listed_models(self.settings);
        let mut models: Vec<ZAiModel> = Vec::new();
        let mut i: usize = 0;
        while i < self.settings.available_models.len()
            invariant
                i <= self.settings.available_models@.len() == all.len(),
                self.settings.available_models@.len() > 0,
                all == listed_models(self.settings),
                models@ == all.take(i as int),
            decreases all.len() - i,
        {
            models.push(configure(&self.settings.available_models[i]));
            assert(models@ == all.take(i + 1));
            i += 1;
        }
        assert(all.take(i as int) == all);
        models
    }

    /// All models that the provider offers.
    pub fn provided_models(&self) -> (r: Vec<ZAiLanguageModel>)
        ensures
            r@.map_values(|offer: ZAiLanguageModel| offer@) == all_offers(
                listed_models(self.settings),
            ),
    {
        let models = self.list_models();
        let ghost views = |offer: ZAiLanguageModel| offer@;
        let mut provided: Vec<ZAiLanguageModel> = Vec::new();
        let mut i: usize = 0;
        assert(provided@.map_values(views) =~= all_offers(models@.take(0)));
        while i < models.len()
            invariant
                i <= models@.len(),
                views == (|offer: ZAiLanguageModel| offer@),
                provided@.map_values(views) == all_offers(models@.take(i as int)),
            decreases models@.len() - i,
        {
            let ghost before = provided@;
            let model = &models[i];
            provided.push(self.create_language_model(model.clone()));
            if model.supports_thinking() {
                provided.push(self.create_thinking_model(model.clone()));
            }
            proof {
                models@.lemma_flat_map_take_append(|model: ZAiModel| offers(model), i as int);
                assert(provided@.map_values(views) =~= before.map_values(views) + offers(*model));
            }
            i += 1;
        }
        assert(models@.take(i as int) == models@);
        provided
    }

    /// The model that is used unless another is chosen.
    pub fn default_model(&self) -> (r: Option<ZAiLanguageModel>)
        ensures
            r is Some,
            r->0@ == plain_offer(ZAiModel::Glm46),
    {
        Some(self.create_language_model(ZAiModel::Glm46))
    }

    /// The model that is used for small tasks unless another is chosen.
    pub fn default_fast_model(&self) -> (r: Option<ZAiLanguageModel>)
        ensures
            r is Some,
            r->0@ == plain_offer(ZAiModel::Glm45Air),
    {
        Some(self.create_language_model(ZAiModel::Glm45Air))
    }
}

/// Whether `id` says that a model is offered with thinking.
pub open spec fn names_thinking(id: Seq<char>) -> bool {
    THINKING_SUFFIX@.is_suffix_of(id)
}

/// The name under which `offer` is shown.
pub open spec fn offer_name(offer: OfferedModel) -> Seq<char> {
    if names_thinking(offer.id) {
        model_display_name(offer.model) + " Thinking"@
    } else {
        model_display_name(offer.model)
    }
}

/// `tokens` as a wider number.
pub open spec fn widened(tokens: Option<u32>) -> Option<u64> {
    match tokens {
        Some(tokens) => Some(tokens as u64),
        None => None,
    }
}

impl ZAiLanguageModel {
    /// The id under which this model is offered.
    pub fn id(&self) -> (r: String)
        ensures
            r@ == self@.id,
    {
        self.id.clone()
    }

    /// The name under which this model is shown.
    pub fn name(&self) -> (r: String)
        ensures
            r@ == offer_name(self@),
    {
        if ends_with(self.id.as_str(), THINKING_SUFFIX) {
            concat(self.model.display_name(), " Thinking")
        } else {
            self.model.display_name().to_string()
        }
    }

    /// The id of the provider.
    pub fn provider_id(&self) -> (r: &'static str)
        ensures
            r@ == PROVIDER_ID@,
    {
        PROVIDER_ID
    }

    /// The name under which the provider is shown.
    pub fn provider_name(&self) -> (r: &'static str)
        ensures
            r@ == PROVIDER_NAME@,
    {
        PROVIDER_NAME
    }

    /// The name of this model in usage statistics.
    pub fn telemetry_id(&self) -> (r: String)
        ensures
            r@ == "z_ai:"@ + model_id(self.model),
    {
        concat("z_ai:", self.model.id())
    }

    /// The number of tokens that this model may give in one completion, if it
    /// is bounded.
    pub fn max_output_tokens(&self) -> (r: Option<u64>)
        ensures
            r == widened(model_max_output_tokens(self.model)),
    {
        match self.model.max_output_tokens() {
            Some(tokens) => Some(tokens as u64),
            None => None,
        }
    }

    /// The number of tokens that the context of this model holds.
    pub fn max_token_count(&self) -> (r: u64)
        ensures
            r == model_max_tokens(self.model),
    {
        self.model.max_tokens()
    }

    /// Models of the service can call tools.
    pub fn supports_tools(&self) -> (r: bool)
        ensures
            r,
    {
        true
    }

    /// Models of the service take every choice among tools.
    pub fn supports_tool_choice(&self, _choice: LanguageModelToolChoice) -> (r: bool)
        ensures
            r,
    {
        true
    }

    /// Models of the service are not sent images.
    pub fn supports_images(&self) -> (r: bool)
        ensures
            !r,
    {
        false
    }
}

} // verus!
