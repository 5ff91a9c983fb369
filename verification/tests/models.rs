use z_ai::failure::PROVIDER_NAME;
use z_ai::model::ZAiModel;
use z_ai::provider::{
    ZAiAvailableModel, ZAiLanguageModel, ZAiLanguageModelProvider, ZAiSettings,
    API_KEY_ENV_VAR_NAME, PROVIDER_ID, REQUEST_LIMIT, Z_AI_API_URL,
};
use z_ai::chat::LanguageModelToolChoice;

fn custom(name: &str, display_name: Option<&str>, thinks: bool) -> ZAiAvailableModel {
    ZAiAvailableModel {
        name: name.to_string(),
        display_name: display_name.map(|name| name.to_string()),
        max_tokens: 200_000,
        max_output_tokens: Some(5_000_000_000),
        supports_thinking: thinks,
    }
}

fn provider(models: Vec<ZAiAvailableModel>) -> ZAiLanguageModelProvider {
    ZAiLanguageModelProvider::new(ZAiSettings { api_url: String::new(), available_models: models })
}

fn ids(models: &[ZAiLanguageModel]) -> Vec<String> {
    models.iter().map(|model| model.id()).collect()
}

#[test]
fn ids_name_models() {
    assert_eq!(ZAiModel::from_id("glm-4.6").unwrap(), ZAiModel::Glm46);
    assert_eq!(ZAiModel::from_id("glm-4.5").unwrap(), ZAiModel::Glm45);
    assert_eq!(ZAiModel::from_id("glm-4.5-air").unwrap(), ZAiModel::Glm45Air);
}

#[test]
fn other_ids_are_refused() {
    for id in ["", "glm-4", "GLM-4.6", "glm-4.6 ", "custom", "glm-4.6-thinking"] {
        let error = ZAiModel::from_id(id).unwrap_err();
        assert_eq!(error.message, format!("invalid model id: {}", id));
    }
}

#[test]
fn ids_lead_back() {
    for model in ZAiModel::builtin() {
        assert_eq!(ZAiModel::from_id(model.id()).unwrap(), model);
    }
    assert_eq!(ZAiModel::default(), ZAiModel::Glm46);
}

#[test]
fn builtin_models_have_their_limits() {
    assert_eq!(ZAiModel::Glm46.max_output_tokens(), Some(32_768));
    assert_eq!(ZAiModel::Glm45.max_output_tokens(), Some(16_384));
    assert_eq!(ZAiModel::Glm45Air.max_output_tokens(), Some(8_192));
    for model in ZAiModel::builtin() {
        assert_eq!(model.max_tokens(), 128_000);
        assert!(model.supports_thinking());
    }
    assert_eq!(ZAiModel::Glm46.display_name(), "GLM-4.6");
    assert_eq!(ZAiModel::Glm45.display_name(), "GLM-4.5");
    assert_eq!(ZAiModel::Glm45Air.display_name(), "GLM-4.5-Air");
}

#[test]
fn custom_models_are_what_the_settings_say() {
    let models = provider(vec![custom("mine", Some("My Model"), false)]).provided_models();
    assert_eq!(ids(&models), ["mine"]);
    let model = &models[0];
    assert_eq!(model.name(), "My Model");
    assert_eq!(model.telemetry_id(), "z_ai:mine");
    assert_eq!(model.max_token_count(), 200_000);
    assert_eq!(model.model.clone(), model.model);
    let unnamed = provider(vec![custom("mine", None, false)]).provided_models();
    assert_eq!(unnamed[0].name(), "mine");
}

#[test]
fn output_limit_of_custom_models_is_cut_to_32_bits() {
    let models = provider(vec![custom("mine", None, false)]).provided_models();
    assert_eq!(models[0].max_output_tokens(), Some(5_000_000_000u64 as u32 as u64));
    assert_eq!(models[0].max_output_tokens(), Some(705_032_704));
    let unbounded = ZAiModel::Custom {
        name: "x".to_string(),
        display_name: None,
        max_tokens: 1,
        max_output_tokens: None,
        supports_thinking: true,
    };
    assert_eq!(unbounded.max_output_tokens(), None);
}

#[test]
fn builtin_models_are_offered_without_settings() {
    assert_eq!(
        ids(&provider(Vec::new()).provided_models()),
        [
            "glm-4.6",
            "glm-4.6-thinking",
            "glm-4.5",
            "glm-4.5-thinking",
            "glm-4.5-air",
            "glm-4.5-air-thinking",
        ]
    );
}

#[test]
fn models_of_the_settings_take_the_place_of_the_others() {
    let models =
        provider(vec![custom("a", None, true), custom("b", None, false)]).provided_models();
    assert_eq!(ids(&models), ["a", "a-thinking", "b"]);
    assert_eq!(models[0].model, models[1].model);
}

#[test]
fn thinking_is_named() {
    let models = provider(Vec::new()).provided_models();
    assert_eq!(models[0].name(), "GLM-4.6");
    assert_eq!(models[1].name(), "GLM-4.6 Thinking");
    assert_eq!(models[5].name(), "GLM-4.5-Air Thinking");
    assert_eq!(models[5].telemetry_id(), "z_ai:glm-4.5-air");
}

#[test]
fn default_models_are_among_the_offered() {
    let provider = provider(Vec::new());
    let default_model = provider.default_model().unwrap();
    let fast = provider.default_fast_model().unwrap();
    assert_eq!(default_model.id(), "glm-4.6");
    assert_eq!(fast.id(), "glm-4.5-air");
    let offered = provider.provided_models();
    assert!(offered.contains(&default_model));
    assert!(offered.contains(&fast));
}

#[test]
fn address_is_the_usual_one_unless_the_settings_name_another() {
    assert_eq!(provider(Vec::new()).api_url(), "https://api.z.ai/api/coding/paas/v4");
    assert_eq!(provider(Vec::new()).api_url(), Z_AI_API_URL);
    let other = ZAiLanguageModelProvider::new(ZAiSettings {
        api_url: "http://localhost/".to_string(),
        available_models: Vec::new(),
    });
    assert_eq!(other.api_url(), "http://localhost/");
    assert_eq!(ZAiSettings::default().api_url, "");
    assert!(ZAiSettings::default().available_models.is_empty());
}

#[test]
fn provider_and_models_say_what_they_are() {
    let provider = provider(Vec::new());
    assert_eq!(provider.id(), "z_ai");
    assert_eq!(provider.name(), "Z.AI");
    assert_eq!((PROVIDER_ID, PROVIDER_NAME), ("z_ai", "Z.AI"));
    assert_eq!(API_KEY_ENV_VAR_NAME, "Z_AI_API_KEY");
    assert_eq!(REQUEST_LIMIT, 4);
    let model = provider.default_model().unwrap();
    assert_eq!(model.provider_id(), "z_ai");
    assert_eq!(model.provider_name(), "Z.AI");
    assert_eq!(model.max_output_tokens(), Some(32_768));
    assert!(model.supports_tools());
    assert!(model.supports_tool_choice(LanguageModelToolChoice::Never));
    assert!(!model.supports_images());
}

#[test]
fn a_completion_of_a_builtin_model_fits_its_context() {
    for model in ZAiModel::builtin() {
        assert!((model.max_output_tokens().unwrap() as u64) < model.max_tokens());
    }
}
