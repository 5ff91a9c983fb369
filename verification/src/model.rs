//! The models of the service.
use crate::text::{concat, same};
use vstd::prelude::*;

verus! {

/// A model of the service.
#[derive(Debug, PartialEq)]
pub enum ZAiModel {
    Glm46,
    Glm45,
    Glm45Air,
    /// A model that the settings describe.
    Custom {
        name: String,
        display_name: Option<String>,
        max_tokens: u64,
        max_output_tokens: Option<u64>,
        supports_thinking: bool,
    },
}

/// There is no model with the given id.
#[derive(Debug, PartialEq)]
pub struct InvalidModelId {
    pub message: String,
}

/// The id of `model` at the service.
pub open spec fn model_id(model: ZAiModel) -> Seq<char> {
    match model {
        ZAiModel::Glm46 => "glm-4.6"@,
        ZAiModel::Glm45 => "glm-4.5"@,
        ZAiModel::Glm45Air => "glm-4.5-air"@,
        ZAiModel::Custom { name, .. } => name@,
    }
}

/// The name under which `model` is shown.
pub open spec fn model_display_name(model: ZAiModel) -> Seq<char> {
    match model {
        ZAiModel::Glm46 => "GLM-4.6"@,
        ZAiModel::Glm45 => "GLM-4.5"@,
        ZAiModel::Glm45Air => "GLM-4.5-Air"@,
        ZAiModel::Custom { name, display_name, .. } => match display_name {
            Some(display_name) => display_name@,
            None => name@,
        },
    }
}

/// The number of tokens that the context of `model` holds.
pub open spec fn model_max_tokens(model: ZAiModel) -> u64 {
    match model {
        ZAiModel::Custom { max_tokens, .. } => max_tokens,
        _ => 128_000,
    }
}

/// The number of tokens that `model` may give in one completion, if it is
/// bounded. Of a number in the settings only the low 32 bits count.
pub open spec fn model_max_output_tokens(model: ZAiModel) -> Option<u32> {
    match model {
        ZAiModel::Glm46 => Some(32_768),
        ZAiModel::Glm45 => Some(16_384),
        ZAiModel::Glm45Air => Some(8_192),
        ZAiModel::Custom { max_output_tokens, .. } => match max_output_tokens {
            Some(tokens) => Some((tokens % 0x1_0000_0000) as u32),
            None => None,
        },
    }
}

/// Whether `model` can think before it answers.
pub open spec fn model_supports_thinking(model: ZAiModel) -> bool {
    match model {
        ZAiModel::Custom { supports_thinking, .. } => supports_thinking,
        _ => true,
    }
}

/// The models that the service itself names, in the order in which they are
/// offered.
pub open spec fn builtin_models() -> Seq<ZAiModel> {
    seq![ZAiModel::Glm46, ZAiModel::Glm45, ZAiModel::Glm45Air]
}

/// The model that the service itself names by this id, if there is one.
pub open spec fn model_named(id: Seq<char>) -> Option<ZAiModel> {
    if id == "glm-4.6"@ {
        Some(ZAiModel::Glm46)
    } else if id == "glm-4.5"@ {
        Some(ZAiModel::Glm45)
    } else if id == "glm-4.5-air"@ {
        Some(ZAiModel::Glm45Air)
    } else {
        None
    }
}

/// The low 32 bits of `value`.
fn low_half(value: u64) -> (r: u32)
    ensures
        r == value % 0x1_0000_0000,
{
    assert(value as u32 == value % 0x1_0000_0000) by (bit_vector);
    #[verifier::truncate]
    (value as u32)
}

impl Default for ZAiModel {
    fn default() -> (r: Self)
        ensures
            r == ZAiModel::Glm46,
    {
        ZAiModel::Glm46
    }
}

impl Clone for ZAiModel {
    fn clone(&self) -> (r: Self)
        ensures
            r == *self,
    {
        match self {
            ZAiModel::Glm46 => ZAiModel::Glm46,
            ZAiModel::Glm45 => ZAiModel::Glm45,
            ZAiModel::Glm45Air => ZAiModel::Glm45Air,
            ZAiModel::Custom {
                name,
                display_name,
                max_tokens,
                max_output_tokens,
                supports_thinking,
            } => ZAiModel::Custom {
                name: name.clone(),
                display_name: match display_name {
                    Some(display_name) => Some(display_name.clone()),
                    None => None,
                },
                max_tokens: *max_tokens,
                max_output_tokens: *max_output_tokens,
                supports_thinking: *supports_thinking,
            },
        }
    }
}

impl ZAiModel {
    /// The models that the service itself names.
    pub fn builtin() -> (r: Vec<ZAiModel>)
        ensures
            r@ == builtin_models(),
    {
        vec![ZAiModel::Glm46, ZAiModel::Glm45, ZAiModel::Glm45Air]
    }

    /// The model that the service itself names by this id.
    pub fn from_id(id: &str) -> (r: Result<Self, InvalidModelId>)
        ensures
            match r {
                Ok(model) => model_named(id@) == Some(model),
                Err(error) => {
                    &&& model_named(id@) is None
                    &&& error.message@ == "invalid model id: "@ + id@
                },
            },
    {
        if same(id, "glm-4.6") {
            Ok(ZAiModel::Glm46)
        } else if same(id, "glm-4.5") {
            Ok(ZAiModel::Glm45)
        } else if same(id, "glm-4.5-air") {
            Ok(ZAiModel::Glm45Air)
        } else {
            Err(InvalidModelId { message: concat("invalid model id: ", id) })
        }
    }

    /// The id of this model at the service.
    pub fn id(&self) -> (r: &str)
        ensures
            r@ == model_id(*self),
    {
        match self {
            ZAiModel::Glm46 => "glm-4.6",
            ZAiModel::Glm45 => "glm-4.5",
            ZAiModel::Glm45Air => "glm-4.5-air",
            ZAiModel::Custom { name, .. } => name.as_str(),
        }
    }

    /// The name under which this model is shown.
    pub fn display_name(&self) -> (r: &str)
        ensures
            r@ == model_display_name(*self),
    {
        match self {
            ZAiModel::Glm46 => "GLM-4.6",
            ZAiModel::Glm45 => "GLM-4.5",
            ZAiModel::Glm45Air => "GLM-4.5-Air",
            ZAiModel::Custom { name, display_name, .. } => match display_name {
                Some(display_name) => display_name.as_str(),
                None => name.as_str(),
            },
        }
    }

    /// The number of tokens that the context of this model holds.
    pub fn max_tokens(&self) -> (r: u64)
        ensures
            r == model_max_tokens(*self),
    {
        match self {
            ZAiModel::Glm46 | ZAiModel::Glm45 | ZAiModel::Glm45Air => 128_000,
            ZAiModel::Custom { max_tokens, .. } => *max_tokens,
        }
    }

    /// The number of tokens that this model may give in one completion, if it
    /// is bounded.
    pub fn max_output_tokens(&self) -> (r: Option<u32>)
        ensures
            r == model_max_output_tokens(*self),
    {
        match self {
            ZAiModel::Glm46 => Some(32_768),
            ZAiModel::Glm45 => Some(16_384),
            ZAiModel::Glm45Air => Some(8_192),
            ZAiModel::Custom { max_output_tokens, .. } => match max_output_tokens {
                Some(tokens) => Some(low_half(*tokens)),
                None => None,
            },
        }
    }

    /// Whether this model can think before it answers.
    pub fn supports_thinking(&self) -> (r: bool)
        ensures
            r == model_supports_thinking(*self),
    {
        match self {
            ZAiModel::Glm46 | ZAiModel::Glm45 | ZAiModel::Glm45Air => true,
            ZAiModel::Custom { supports_thinking, .. } => *supports_thinking,
        }
    }
}

} // verus!
