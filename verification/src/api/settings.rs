//! The chat settings the route layer owns: the values every request is
//! seeded from, and their validation.
//!
//! Sampling parameters are integers in thousandths, as everywhere in
//! the library; the route layer converts the wire's fractional fields.

use vstd::prelude::*;
use vstd::string::StringExecFns;
use crate::client::error::str_eq;

verus! {

/// The externally owned, mutable settings a request is seeded from.
#[derive(Debug, Clone)]
pub struct ChatSettings {
    pub model: String,
    /// Sampling temperature in thousandths; 700 stands for 0.7.
    pub temperature: u32,
    /// Nucleus-sampling bound in thousandths.
    pub top_p: u32,
    pub max_tokens: u32,
    pub thinking_enabled: bool,
    pub stream: bool,
}

impl Default for ChatSettings {
    fn default() -> (r: Self)
        ensures
            r.model@ == "glm-4.5"@,
            r.temperature == 700,
            r.top_p == 700,
            r.max_tokens == 8192,
            r.thinking_enabled == true,
            r.stream == true,
    {
        Self {
            model: "glm-4.5".to_owned(),
            temperature: 700,
            top_p: 700,
            max_tokens: 8192,
            thinking_enabled: true,
            stream: true,
        }
    }
}

impl ChatSettings {
    /// What the route layer accepts: sampling parameters within the unit
    /// interval, a token bound between 1 and 32768, and one of the three
    /// known model ids.
    pub open spec fn spec_valid(&self) -> bool {
        &&& self.temperature <= 1000
        &&& self.top_p <= 1000
        &&& 1 <= self.max_tokens <= 32768
        &&& (self.model@ == "glm-4.5"@ || self.model@ == "glm-4.5-32k"@ || self.model@
            == "glm-4.5-turbo"@)
    }

    /// Accepts the settings exactly when they satisfy the documented
    /// ranges and name a known model.
    pub fn validate(&self) -> (r: Result<(), String>)
        ensures
            r is Ok <==> self.spec_valid(),
    {
        if self.temperature > 1000 {
            return Err("temperature must lie between 0.0 and 1.0".to_owned());
        }
        if self.top_p > 1000 {
            return Err("top_p must lie between 0.0 and 1.0".to_owned());
        }
        if self.max_tokens == 0 || self.max_tokens > 32768 {
            return Err("max_tokens must lie between 1 and 32768".to_owned());
        }
        if !(str_eq(self.model.as_str(), "glm-4.5") || str_eq(self.model.as_str(), "glm-4.5-32k")
            || str_eq(self.model.as_str(), "glm-4.5-turbo")) {
            return Err(
                "unknown model; available: glm-4.5, glm-4.5-32k, glm-4.5-turbo".to_owned(),
            );
        }
        Ok(())
    }
}

} // verus!
