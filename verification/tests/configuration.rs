use z_ai::configuration::{
    ConfigurationPanel, ConfigurationViewTargetAgent, State, ZAiConfigurationView,
};

fn state(has_key: bool, is_from_env_var: bool) -> State {
    State { has_key, is_from_env_var }
}

fn loaded(has_key: bool, is_from_env_var: bool) -> ZAiConfigurationView {
    let mut view = ZAiConfigurationView::new(
        state(false, false),
        ConfigurationViewTargetAgent::Other("Agent X".to_string()),
    );
    view.loaded(state(has_key, is_from_env_var));
    view
}

#[test]
fn the_page_opens_while_the_key_is_looked_for() {
    let view = ZAiConfigurationView::new(state(true, false), ConfigurationViewTargetAgent::ZedAgent);
    assert!(view.loading);
    assert_eq!(
        view.render(),
        ConfigurationPanel::Loading { label: "Loading credentials...".to_string() }
    );
}

#[test]
fn the_page_asks_for_a_key() {
    match loaded(false, false).render() {
        ConfigurationPanel::Editor { heading, instructions, note } => {
            assert_eq!(
                heading,
                "To use Agent X, you need to add an API key. Follow these steps:"
            );
            assert_eq!(instructions.len(), 2);
            assert_eq!(instructions[0].text, "Create one by visiting");
            let link = instructions[0].link.as_ref().unwrap();
            assert_eq!(link.label, "Z.AI's settings");
            assert_eq!(link.url, "https://z.ai/manage-apikey/apikey-list");
            assert_eq!(
                instructions[1].text,
                "Paste your API key below and hit enter to start using the agent"
            );
            assert_eq!(instructions[1].link, None);
            assert_eq!(
                note,
                "You can also assign the Z_AI_API_KEY environment variable and restart Zed."
            );
        }
        other => panic!("{:?}", other),
    }
    let mut own = ZAiConfigurationView::new(state(false, false), ConfigurationViewTargetAgent::ZedAgent);
    own.loaded(state(true, true));
    match own.render() {
        ConfigurationPanel::Editor { heading, .. } => assert_eq!(
            heading,
            "To use Zed's agent with Z.AI, you need to add an API key. Follow these steps:"
        ),
        other => panic!("{:?}", other),
    }
}

#[test]
fn a_shown_key_can_be_removed() {
    assert_eq!(
        loaded(true, false).render(),
        ConfigurationPanel::Configured { label: "API key configured".to_string(), removable: true }
    );
    assert!(!loaded(true, false).should_render_editor());
    assert!(loaded(true, true).should_render_editor());
    assert!(loaded(false, true).should_render_editor());
    assert!(loaded(false, false).should_render_editor());
}

#[test]
fn an_empty_field_stores_nothing() {
    let view = loaded(false, false);
    assert_eq!(view.save_api_key(String::new()), None);
    assert_eq!(view.save_api_key(" k".to_string()), Some(" k".to_string()));
}

#[test]
fn a_key_authenticates() {
    assert!(state(true, false).is_authenticated());
    assert!(!state(false, false).is_authenticated());
}
