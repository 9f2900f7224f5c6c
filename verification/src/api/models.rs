//! The catalogue of models the service offers, as the route layer
//! reports it.

use vstd::prelude::*;

verus! {

/// One entry of the model catalogue.
#[derive(Debug, Clone)]
pub struct ModelInfo {
    pub id: String,
    pub name: String,
    pub description: String,
    pub max_tokens: u32,
    pub supports_streaming: bool,
    pub supports_thinking: bool,
    pub context_window: u32,
}

impl ModelInfo {
    pub fn glm_4_5() -> (r: Self)
        ensures
            r.id@ == "glm-4.5"@,
            r.name@ == "GLM-4.5"@,
            r.max_tokens == 8192,
            r.supports_streaming,
            r.supports_thinking,
            r.context_window == 128000,
    {
        Self {
            id: "glm-4.5".to_owned(),
            name: "GLM-4.5".to_owned(),
            description: "Latest GLM-4.5 model with improved performance".to_owned(),
            max_tokens: 8192,
            supports_streaming: true,
            supports_thinking: true,
            context_window: 128000,
        }
    }

    pub fn glm_4_5_32k() -> (r: Self)
        ensures
            r.id@ == "glm-4.5-32k"@,
            r.name@ == "GLM-4.5-32K"@,
            r.max_tokens == 32768,
            r.supports_streaming,
            r.supports_thinking,
            r.context_window == 128000,
    {
        Self {
            id: "glm-4.5-32k".to_owned(),
            name: "GLM-4.5-32K".to_owned(),
            description: "GLM-4.5 with extended 32K token support".to_owned(),
            max_tokens: 32768,
            supports_streaming: true,
            supports_thinking: true,
            context_window: 128000,
        }
    }

    pub fn glm_4_5_turbo() -> (r: Self)
        ensures
            r.id@ == "glm-4.5-turbo"@,
            r.name@ == "GLM-4.5-Turbo"@,
            r.max_tokens == 8192,
            r.supports_streaming,
            !r.supports_thinking,
            r.context_window == 128000,
    {
        Self {
            id: "glm-4.5-turbo".to_owned(),
            name: "GLM-4.5-Turbo".to_owned(),
            description: "Faster variant of GLM-4.5 for better performance".to_owned(),
            max_tokens: 8192,
            supports_streaming: true,
            supports_thinking: false,
            context_window: 128000,
        }
    }
}

/// The whole catalogue, in its listed order.
pub fn all_models() -> (r: Vec<ModelInfo>)
    ensures
        r@.len() == 3,
        r@[0].id@ == "glm-4.5"@,
        r@[1].id@ == "glm-4.5-32k"@,
        r@[2].id@ == "glm-4.5-turbo"@,
{
    let mut out: Vec<ModelInfo> = Vec::new();
    out.push(ModelInfo::glm_4_5());
    out.push(ModelInfo::glm_4_5_32k());
    out.push(ModelInfo::glm_4_5_turbo());
    out
}

} // verus!
