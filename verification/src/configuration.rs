//! What the settings page of the provider shows, and what it does.
use vstd::prelude::*;

verus! {

/// What is known of the API key.
#[derive(Clone, Copy, Debug, PartialEq, Eq, Structural)]
pub struct State {
    pub has_key: bool,
    pub is_from_env_var: bool,
}

impl State {
    /// Whether the provider can be used.
    pub fn is_authenticated(&self) -> (r: bool)
        ensures
            r == self.has_key,
    {
        self.has_key
    }
}

/// For whom the page is shown.
#[derive(Debug, PartialEq)]
pub enum ConfigurationViewTargetAgent {
    /// The host's own agent.
    ZedAgent,
    /// The agent with this name.
    Other(String),
}

/// One step of the instructions, with a link after its text if there is one to
/// follow.
#[derive(Debug, PartialEq)]
pub struct Instruction {
    pub text: String,
    pub link: Option<Link>,
}

/// A link, and the text that stands for it.
#[derive(Debug, PartialEq)]
pub struct Link {
    pub label: String,
    pub url: String,
}

/// What the page shows.
#[derive(Debug, PartialEq)]
pub enum ConfigurationPanel {
    /// That the key is being looked for.
    Loading { label: String },
    /// How to get a key, a field to put it in, and a note.
    Editor { heading: String, instructions: Vec<Instruction>, note: String },
    /// That there is a key, and a button to remove it if it can be removed.
    Configured { label: String, removable: bool },
}

/// What an `Instruction` holds: its text, and the label and the target of its link.
pub struct InstructionModel {
    pub text: Seq<char>,
    pub link: Option<(Seq<char>, Seq<char>)>,
}

impl View for Instruction {
    type V = InstructionModel;

    open spec fn view(&self) -> InstructionModel {
        InstructionModel {
            text: self.text@,
            link: match self.link {
                Some(link) => Some((link.label@, link.url@)),
                None => None,
            },
        }
    }
}

/// What a `ConfigurationPanel` holds.
pub enum PanelModel {
    Loading { label: Seq<char> },
    Editor { heading: Seq<char>, instructions: Seq<InstructionModel>, note: Seq<char> },
    Configured { label: Seq<char>, removable: bool },
}

impl View for ConfigurationPanel {
    type V = PanelModel;

    open spec fn view(&self) -> PanelModel {
        match self {
            ConfigurationPanel::Loading { label } => PanelModel::Loading { label: label@ },
            ConfigurationPanel::Editor { heading, instructions, note } => PanelModel::Editor {
                heading: heading@,
                instructions: instructions@.map_values(|step: Instruction| step@),
                note: note@,
            },
            ConfigurationPanel::Configured { label, removable } => PanelModel::Configured {
                label: label@,
                removable: *removable,
            },
        }
    }
}

/// The name of the agent that the page is shown for.
pub open spec fn agent_name(agent: ConfigurationViewTargetAgent) -> Seq<char> {
    match agent {
        ConfigurationViewTargetAgent::ZedAgent => "Zed's agent with Z.AI"@,
        ConfigurationViewTargetAgent::Other(name) => name@,
    }
}

/// How to get a key.
pub open spec fn instruction_steps() -> Seq<InstructionModel> {
    seq![
        InstructionModel {
            text: "Create one by visiting"@,
            link: Some(("Z.AI's settings"@, "https://z.ai/manage-apikey/apikey-list"@)),
        },
        InstructionModel {
            text: "Paste your API key below and hit enter to start using the agent"@,
            link: None,
        },
    ]
}

/// Whether the page asks for a key: if there is none, and if it is one from the
/// environment.
pub open spec fn asks_for_key(state: State) -> bool {
    !state.has_key || state.is_from_env_var
}

/// What `view` shows.
pub open spec fn panel(view: ZAiConfigurationView) -> PanelModel {
    if view.loading {
        PanelModel::Loading { label: "Loading credentials..."@ }
    } else if asks_for_key(view.state) {
        PanelModel::Editor {
            heading: "To use "@ + agent_name(view.target_agent)
                + ", you need to add an API key. Follow these steps:"@,
            instructions: instruction_steps(),
            note:
                "You can also assign the Z_AI_API_KEY environment variable and restart Zed."@,
        }
    } else {
        PanelModel::Configured {
            label: "API key configured"@,
            removable: !view.state.is_from_env_var,
        }
    }
}

/// The settings page of the provider.
#[derive(Debug, PartialEq)]
pub struct ZAiConfigurationView {
    pub state: State,
    pub target_agent: ConfigurationViewTargetAgent,
    /// Whether the key is still being looked for.
    pub loading: bool,
}

impl ZAiConfigurationView {
    /// The page as it opens, when the key starts to be looked for.
    pub fn new(state: State, target_agent: ConfigurationViewTargetAgent) -> (r: Self)
        ensures
            r.state == state,
            r.target_agent == target_agent,
            r.loading,
    {
        ZAiConfigurationView { state, target_agent, loading: true }
    }

    /// The key has been looked for, and this is what is known of it now.
    pub fn loaded(&mut self, state: State)
        ensures
            final(self).state == state,
            final(self).target_agent == old(self).target_agent,
            !final(self).loading,
    {
        self.state = state;
        self.loading = false;
    }

    /// Whether the page asks for a key.
    pub fn should_render_editor(&self) -> (r: bool)
        ensures
            r == asks_for_key(self.state),
    {
        !self.state.has_key || self.state.is_from_env_var
    }

    /// The key to store when the field of the editor, which holds `text`, is
    /// confirmed; the field is to be cleared then. An empty field does nothing.
    pub fn save_api_key(&self, text: String) -> (r: Option<String>)
        ensures
            match r {
                Some(key) => key == text && text@.len() > 0,
                None => text@.len() == 0,
            },
    {
        if text.as_str().is_empty() {
            None
        } else {
            Some(text)
        }
    }

    /// What the page shows.
    pub fn render(&self) -> (r: ConfigurationPanel)
        ensures
            r@ == panel(*self),
    {
        if self.loading {
            return ConfigurationPanel::Loading { label: "Loading credentials...".to_string() };
        }
        if self.should_render_editor() {
            let agent: &str = match &self.target_agent {
                ConfigurationViewTargetAgent::ZedAgent => "Zed's agent with Z.AI",
                ConfigurationViewTargetAgent::Other(name) => name.as_str(),
            };
            let heading = "To use ".to_string().concat(agent).concat(
                ", you need to add an API key. Follow these steps:",
            );
            let instructions: Vec<Instruction> = vec![
                Instruction {
                    text: "Create one by visiting".to_string(),
                    link: Some(
                        Link {
                            label: "Z.AI's settings".to_string(),
                            url: "https://z.ai/manage-apikey/apikey-list".to_string(),
                        },
                    ),
                },
                Instruction {
                    text:
                        "Paste your API key below and hit enter to start using the agent".to_string(),
                    link: None,
                },
            ];
            assert(instructions@.map_values(|step: Instruction| step@) =~= instruction_steps());
            ConfigurationPanel::Editor {
                heading,
                instructions,
                note:
                    "You can also assign the Z_AI_API_KEY environment variable and restart Zed.".to_string(),
            }
        } else {
            ConfigurationPanel::Configured {
                label: "API key configured".to_string(),
                removable: !self.state.is_from_env_var,
            }
        }
    }
}

} // verus!
