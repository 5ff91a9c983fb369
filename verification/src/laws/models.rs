//! Laws of the models that are offered.
use super::text::law_base_and_suffix;
use crate::completion::{service_id, thinks};
use crate::model::{
    builtin_models, model_display_name, model_id, model_max_output_tokens, model_max_tokens,
    model_named, model_supports_thinking, InvalidModelId, ZAiModel,
};
use crate::provider::{
    all_offers, listed_models, names_thinking, offer_name, offers, plain_offer, thinking_offer,
    OfferedModel, ZAiLanguageModel, ZAiLanguageModelProvider, ZAiSettings, THINKING_SUFFIX,
};
use vstd::prelude::*;

verus! {

/// The id of a model that the service itself names leads back to that model,
/// and a model that an id leads to has that id.
pub proof fn law_ids_lead_back(model: ZAiModel, id: Seq<char>)
    ensures
        builtin_models().contains(model) ==> model_named(model_id(model)) == Some(model),
        model_named(id) matches Some(found) ==> builtin_models().contains(found) && model_id(found)
            == id,
{
    reveal_strlit("glm-4.6");
    reveal_strlit("glm-4.5");
    reveal_strlit("glm-4.5-air");
    assert("glm-4.6"@[6] != "glm-4.5"@[6]);
    assert("glm-4.5"@.len() != "glm-4.5-air"@.len());
    assert("glm-4.6"@.len() != "glm-4.5-air"@.len());
    assert(builtin_models()[0] == ZAiModel::Glm46);
    assert(builtin_models()[1] == ZAiModel::Glm45);
    assert(builtin_models()[2] == ZAiModel::Glm45Air);
}

/// No model that the service itself names has an id that ends as if it were
/// offered with thinking.
pub proof fn law_builtin_ids_do_not_name_thinking(model: ZAiModel)
    requires
        builtin_models().contains(model),
    ensures
        !names_thinking(model_id(model)),
{
    reveal_strlit("glm-4.6");
    reveal_strlit("glm-4.5");
    reveal_strlit("glm-4.5-air");
    reveal_strlit("-thinking");
    let suffix = THINKING_SUFFIX@;
    let id = model_id(model);
    if suffix.is_suffix_of(id) {
        assert(id == "glm-4.5-air"@);
        assert(suffix[8] == id.subrange(2, 11)[8]);
    }
}

/// A model that is offered with thinking in its id is asked for under its own id.
pub proof fn law_thinking_offer_asks_for_model(model: ZAiModel)
    ensures
        names_thinking(thinking_offer(model).id),
        service_id(thinking_offer(model).id) == model_id(model),
{
    let id = model_id(model) + THINKING_SUFFIX@;
    assert(id.subrange(id.len() - THINKING_SUFFIX@.len(), id.len() as int) == THINKING_SUFFIX@);
    assert(id.take(id.len() - THINKING_SUFFIX@.len()) == model_id(model));
}

/// A model that is offered without thinking in its id is asked for under its
/// own id, unless that very id ends as if it were offered with thinking.
pub proof fn law_plain_offer_asks_for_model(model: ZAiModel)
    requires
        !names_thinking(model_id(model)),
    ensures
        service_id(plain_offer(model).id) == model_id(model),
{
}

/// Thinking is turned on exactly if the request allows it and the model can
/// think or is offered as thinking.
pub proof fn law_thinking(model: ZAiModel, thinking_allowed: bool)
    ensures
        thinks(thinking_offer(model), thinking_allowed) == thinking_allowed,
        !names_thinking(model_id(model)) ==> thinks(plain_offer(model), thinking_allowed) == (
        thinking_allowed && model_supports_thinking(model)),
{
    law_thinking_offer_asks_for_model(model);
}

proof fn lemma_all_offers_contain(models: Seq<ZAiModel>, offer: OfferedModel)
    ensures
        all_offers(models).contains(offer) <==> exists|i: int|
            0 <= i < models.len() && offers(#[trigger] models[i]).contains(offer),
    decreases models.len(),
{
    let f = |model: ZAiModel| offers(model);
    if models.len() == 0 {
        assert(models.flat_map(f) =~= Seq::<OfferedModel>::empty());
    } else {
        let shorter = models.drop_last();
        let last = models.last();
        lemma_all_offers_contain(shorter, offer);
        assert(models == shorter.push(last));
        shorter.lemma_flat_map_push(f, last);
        let both = all_offers(models);
        assert(both == all_offers(shorter) + offers(last));
        if both.contains(offer) {
            let i = choose|i: int| 0 <= i < both.len() && both[i] == offer;
            if i < all_offers(shorter).len() {
                assert(all_offers(shorter)[i] == offer);
                let j = choose|j: int|
                    0 <= j < shorter.len() && offers(#[trigger] shorter[j]).contains(offer);
                assert(offers(models[j]).contains(offer));
            } else {
                assert(offers(last)[i - all_offers(shorter).len()] == offer);
                assert(offers(models[models.len() - 1]).contains(offer));
            }
        }
        if exists|i: int| 0 <= i < models.len() && offers(#[trigger] models[i]).contains(offer) {
            let i = choose|i: int|
                0 <= i < models.len() && offers(#[trigger] models[i]).contains(offer);
            if i < shorter.len() {
                assert(offers(shorter[i]).contains(offer));
                let j = choose|j: int| 0 <= j < all_offers(shorter).len() && all_offers(shorter)[j] == offer;
                assert(both[j] == offer);
            } else {
                let j = choose|j: int| 0 <= j < offers(last).len() && offers(last)[j] == offer;
                assert(both[all_offers(shorter).len() + j] == offer);
            }
        }
    }
}

/// Each model of the list is offered, with thinking in its id too exactly if it
/// can think, and nothing else is offered.
pub proof fn law_offers_are_those_of_the_list(settings: ZAiSettings, offer: OfferedModel)
    ensures
        all_offers(listed_models(settings)).contains(offer) <==> {
            &&& listed_models(settings).contains(offer.model)
            &&& offer == plain_offer(offer.model) || (offer == thinking_offer(offer.model)
                && model_supports_thinking(offer.model))
        },
{
    let models = listed_models(settings);
    lemma_all_offers_contain(models, offer);
    assert(forall|model: ZAiModel|
        offers(model).contains(offer) <==> offer == plain_offer(model) || (model_supports_thinking(
            model,
        ) && offer == thinking_offer(model))) by {
        assert forall|model: ZAiModel|
            offers(model).contains(offer) <==> offer == plain_offer(model) || (
            model_supports_thinking(model) && offer == thinking_offer(model)) by {
            assert(offers(model)[0] == plain_offer(model));
            if model_supports_thinking(model) {
                assert(offers(model)[1] == thinking_offer(model));
            }
        }
    }
    if models.contains(offer.model) {
        let i = choose|i: int| 0 <= i < models.len() && models[i] == offer.model;
        assert(offers(models[i]).contains(offer) <==> offers(offer.model).contains(offer));
    }
}

/// Without models in the settings, the models that are used unless others are
/// chosen are among those offered.
pub proof fn law_default_models_are_offered(settings: ZAiSettings)
    requires
        settings.available_models@.len() == 0,
    ensures
        all_offers(listed_models(settings)).contains(plain_offer(ZAiModel::Glm46)),
        all_offers(listed_models(settings)).contains(plain_offer(ZAiModel::Glm45Air)),
{
    assert(builtin_models()[0] == ZAiModel::Glm46);
    assert(builtin_models()[2] == ZAiModel::Glm45Air);
    law_offers_are_those_of_the_list(settings, plain_offer(ZAiModel::Glm46));
    law_offers_are_those_of_the_list(settings, plain_offer(ZAiModel::Glm45Air));
}

/// Models in the settings take the place of those that the service itself names.
pub proof fn law_settings_replace_builtin_models(settings: ZAiSettings, offer: OfferedModel)
    requires
        settings.available_models@.len() > 0,
        all_offers(listed_models(settings)).contains(offer),
    ensures
        offer.model is Custom,
{
    law_offers_are_those_of_the_list(settings, offer);
}

/// The name of a model that is offered with thinking in its id says so.
pub proof fn law_thinking_offer_is_named(model: ZAiModel)
    ensures
        offer_name(thinking_offer(model)) == model_display_name(model) + " Thinking"@,
        !names_thinking(model_id(model)) ==> offer_name(plain_offer(model)) == model_display_name(
            model,
        ),
{
    law_thinking_offer_asks_for_model(model);
}

/// A model that the service itself names can give no more in one completion
/// than its context holds.
pub proof fn law_builtin_output_fits_context(model: ZAiModel)
    requires
        builtin_models().contains(model),
    ensures
        model_max_output_tokens(model) matches Some(tokens) && tokens <= model_max_tokens(model),
{
}

/// A model of the settings has exactly the names and the limits that its entry
/// there gives. The name is shown where no other is given, and of the limit on
/// one completion the low 32 bits count.
pub proof fn law_configured_model_is_its_entry(settings: ZAiSettings, i: int)
    requires
        0 <= i < settings.available_models@.len(),
    ensures
        listed_models(settings).len() == settings.available_models@.len(),
        ({
            let entry = settings.available_models@[i];
            let model = listed_models(settings)[i];
            &&& model is Custom
            &&& model_id(model) == entry.name@
            &&& entry.display_name is None ==> model_display_name(model) == entry.name@
            &&& entry.display_name matches Some(shown) ==> model_display_name(model) == shown@
            &&& model_max_tokens(model) == entry.max_tokens
            &&& model_max_output_tokens(model) is Some == entry.max_output_tokens is Some
            &&& entry.max_output_tokens is Some ==> model_max_output_tokens(model)->0
                == entry.max_output_tokens->0 % 0x1_0000_0000
            &&& model_supports_thinking(model) == entry.supports_thinking
        }),
{
}

/// Whatever is offered of the entries in the settings, the host is told the
/// context size of the entry behind it, whatever that number is.
pub proof fn law_offer_tells_configured_context(
    provider: &ZAiLanguageModelProvider,
    provided: Vec<ZAiLanguageModel>,
    k: int,
    tokens: u64,
)
    requires
        provider.settings.available_models@.len() > 0,
        call_ensures(ZAiLanguageModelProvider::provided_models, (provider,), provided),
        0 <= k < provided@.len(),
        call_ensures(ZAiLanguageModel::max_token_count, (&provided@[k],), tokens),
    ensures
        exists|i: int|
            {
                &&& 0 <= i < provider.settings.available_models@.len()
                &&& provided@[k].id@ == (#[trigger] provider.settings.available_models@[i]).name@
                    || provided@[k].id@ == provider.settings.available_models@[i].name@
                    + "-thinking"@
                &&& tokens == provider.settings.available_models@[i].max_tokens
            },
{
    let settings = provider.settings;
    let offer = provided@[k]@;
    let offers = provided@.map_values(|offer: ZAiLanguageModel| offer@);
    assert(offers[k] == offer);
    assert(all_offers(listed_models(settings)).contains(offer));
    law_offers_are_those_of_the_list(settings, offer);
    let models = listed_models(settings);
    let i = choose|i: int| 0 <= i < models.len() && models[i] == offer.model;
    law_configured_model_is_its_entry(settings, i);
    assert(settings.available_models@[i].max_tokens == tokens);
}

/// One model more is offered after the others under its own id, and then, if it
/// can think, once more with thinking in its id.
pub proof fn law_model_is_offered(models: Seq<ZAiModel>, model: ZAiModel)
    ensures
        all_offers(Seq::empty()) == Seq::<OfferedModel>::empty(),
        ({
            let before = all_offers(models);
            let after = all_offers(models.push(model));
            let more: int = if model_supports_thinking(model) { 2 } else { 1 };
            &&& after.len() == before.len() + more
            &&& after.take(before.len() as int) == before
            &&& after[before.len() as int] == (OfferedModel { id: model_id(model), model })
            &&& model_supports_thinking(model) ==> after.last() == (OfferedModel {
                id: model_id(model) + "-thinking"@,
                model,
            })
        }),
{
    let f = |model: ZAiModel| offers(model);
    models.lemma_flat_map_push(f, model);
    assert(all_offers(Seq::empty()) =~= Seq::<OfferedModel>::empty());
    assert(all_offers(models.push(model)).take(all_offers(models).len() as int) == all_offers(
        models,
    ));
}

/// Without models in the settings, those that the service itself names are
/// listed, each with its names and its limits.
pub proof fn law_builtin_models(settings: ZAiSettings)
    requires
        settings.available_models@.len() == 0,
    ensures
        listed_models(settings) == seq![ZAiModel::Glm46, ZAiModel::Glm45, ZAiModel::Glm45Air],
        forall|i: int|
            0 <= i < 3 ==> model_max_tokens(#[trigger] listed_models(settings)[i]) == 128_000
                && model_supports_thinking(listed_models(settings)[i]),
        model_id(ZAiModel::Glm46) == "glm-4.6"@,
        model_id(ZAiModel::Glm45) == "glm-4.5"@,
        model_id(ZAiModel::Glm45Air) == "glm-4.5-air"@,
        model_display_name(ZAiModel::Glm46) == "GLM-4.6"@,
        model_display_name(ZAiModel::Glm45) == "GLM-4.5"@,
        model_display_name(ZAiModel::Glm45Air) == "GLM-4.5-Air"@,
        model_max_output_tokens(ZAiModel::Glm46) == Some(32_768u32),
        model_max_output_tokens(ZAiModel::Glm45) == Some(16_384u32),
        model_max_output_tokens(ZAiModel::Glm45Air) == Some(8_192u32),
{
}

/// What a model tells of itself is what it is: for a model of the settings, the
/// very fields that it was made of.
pub proof fn law_custom_model_tells_its_fields(
    model: &ZAiModel,
    id: &str,
    shown: &str,
    context: u64,
    output: Option<u32>,
    can_think: bool,
)
    requires
        model is Custom,
        call_ensures(ZAiModel::id, (model,), id),
        call_ensures(ZAiModel::display_name, (model,), shown),
        call_ensures(ZAiModel::max_tokens, (model,), context),
        call_ensures(ZAiModel::max_output_tokens, (model,), output),
        call_ensures(ZAiModel::supports_thinking, (model,), can_think),
    ensures
        id@ == model->name@,
        model->display_name is None ==> shown@ == model->name@,
        model->display_name is Some ==> shown@ == model->display_name->0@,
        context == model->max_tokens,
        output is Some == model->max_output_tokens is Some,
        output is Some ==> output->0 == model->max_output_tokens->0 % 0x1_0000_0000,
        can_think == model->supports_thinking,
{
}

/// What is offered tells the host what the model behind it is: its own id, the
/// model's name, marked if the id says that it thinks, and the model's limits.
pub proof fn law_offer_tells_its_model(
    offer: &ZAiLanguageModel,
    base: Seq<char>,
    id: String,
    name: String,
    telemetry: String,
    context: u64,
    output: Option<u64>,
)
    requires
        call_ensures(ZAiLanguageModel::id, (offer,), id),
        call_ensures(ZAiLanguageModel::name, (offer,), name),
        call_ensures(ZAiLanguageModel::telemetry_id, (offer,), telemetry),
        call_ensures(ZAiLanguageModel::max_token_count, (offer,), context),
        call_ensures(ZAiLanguageModel::max_output_tokens, (offer,), output),
    ensures
        id@ == offer.id@,
        offer.id@ == base + "-thinking"@ ==> name@ == model_display_name(offer.model)
            + " Thinking"@,
        !"-thinking"@.is_suffix_of(offer.id@) ==> name@ == model_display_name(offer.model),
        telemetry@ == "z_ai:"@ + model_id(offer.model),
        offer.model is Custom ==> context == offer.model->max_tokens,
        output is Some == model_max_output_tokens(offer.model) is Some,
        output is Some ==> output->0 == model_max_output_tokens(offer.model)->0,
{
    law_base_and_suffix(offer.id@, base, THINKING_SUFFIX@);
}

/// The address is the one in the settings, or the usual one if that is empty.
pub proof fn law_address(provider: &ZAiLanguageModelProvider, url: String)
    requires
        call_ensures(ZAiLanguageModelProvider::api_url, (provider,), url),
    ensures
        provider.settings.api_url@.len() > 0 ==> url@ == provider.settings.api_url@,
        provider.settings.api_url@.len() == 0 ==> url@ == "https://api.z.ai/api/coding/paas/v4"@,
{
}

/// What the provider offers are the listed models, as they are offered one by
/// one: the same number, the same ids and the same models, in the same order.
pub proof fn law_provided_are_the_offers(
    provider: &ZAiLanguageModelProvider,
    provided: Vec<ZAiLanguageModel>,
    i: int,
)
    requires
        call_ensures(ZAiLanguageModelProvider::provided_models, (provider,), provided),
    ensures
        provided@.len() == all_offers(listed_models(provider.settings)).len(),
        0 <= i < provided@.len() ==> provided@[i].id@ == all_offers(
            listed_models(provider.settings),
        )[i].id && provided@[i].model == all_offers(listed_models(provider.settings))[i].model,
{
    let views = provided@.map_values(|offer: ZAiLanguageModel| offer@);
    assert(views.len() == provided@.len());
    if 0 <= i < provided@.len() {
        assert(views[i] == provided@[i]@);
    }
}

/// An id leads to a model exactly if it is the id of one that the service itself
/// names, and an id that leads to none is quoted in full.
pub proof fn law_ids_are_looked_up(id: &str, r: Result<ZAiModel, InvalidModelId>)
    requires
        call_ensures(ZAiModel::from_id, (id,), r),
    ensures
        r is Ok <==> id@ == "glm-4.6"@ || id@ == "glm-4.5"@ || id@ == "glm-4.5-air"@,
        r matches Ok(model) ==> !(model is Custom) && model_id(model) == id@,
        r matches Err(error) ==> error.message@ == "invalid model id: "@ + id@,
{
}

/// A model is offered under its own id, or with thinking in its id, and the
/// models that are used unless others are chosen are two that the service names.
pub proof fn law_ids_of_offers(
    provider: &ZAiLanguageModelProvider,
    model: ZAiModel,
    plain: ZAiLanguageModel,
    thinking: ZAiLanguageModel,
    usual: Option<ZAiLanguageModel>,
    fast: Option<ZAiLanguageModel>,
)
    requires
        call_ensures(ZAiLanguageModelProvider::create_language_model, (provider, model), plain),
        call_ensures(ZAiLanguageModelProvider::create_thinking_model, (provider, model), thinking),
        call_ensures(ZAiLanguageModelProvider::default_model, (provider,), usual),
        call_ensures(ZAiLanguageModelProvider::default_fast_model, (provider,), fast),
    ensures
        plain.model == model,
        thinking.model == model,
        plain.id@ == model_id(model),
        thinking.id@ == plain.id@ + "-thinking"@,
        usual is Some && usual->0.id@ == "glm-4.6"@ && usual->0.model is Glm46,
        fast is Some && fast->0.id@ == "glm-4.5-air"@ && fast->0.model is Glm45Air,
{
}

} // verus!
