//! The typed protocol model: messages, requests, responses, streaming
//! chunks, and the client configuration.
//!
//! Sampling parameters are carried as integers in thousandths (700 stands
//! for 0.7), since the library computes with plain integers; the route
//! layer converts to the service's fractional wire fields.

use vstd::prelude::*;
use vstd::string::StringSliceAdditionalSpecFns;
use crate::client::error::{str_eq, GlmError};
use crate::json::JsonValue;

verus! {

/// The model identifiers the service accepts.
#[derive(Debug, Clone, Copy, PartialEq, Eq, Structural)]
pub enum GlmModel {
    Glm45,
    Glm4532K,
    Glm45Turbo,
}

impl GlmModel {
    /// The wire id of each model.
    pub open spec fn spec_id(&self) -> Seq<char> {
        match self {
            GlmModel::Glm45 => "glm-4.5"@,
            GlmModel::Glm4532K => "glm-4.5-32k"@,
            GlmModel::Glm45Turbo => "glm-4.5-turbo"@,
        }
    }

    /// The wire id as an owned string.
    pub fn to_string(&self) -> (r: String)
        ensures
            r@ == self.spec_id(),
    {
        match self {
            GlmModel::Glm45 => "glm-4.5".to_owned(),
            GlmModel::Glm4532K => "glm-4.5-32k".to_owned(),
            GlmModel::Glm45Turbo => "glm-4.5-turbo".to_owned(),
        }
    }

    /// The model a wire id names; an unknown id falls back to the default
    /// model.
    pub open spec fn spec_from_id(id: Seq<char>) -> GlmModel {
        if id == "glm-4.5-32k"@ {
            GlmModel::Glm4532K
        } else if id == "glm-4.5-turbo"@ {
            GlmModel::Glm45Turbo
        } else {
            GlmModel::Glm45
        }
    }

    pub fn from_id(id: &str) -> (r: GlmModel)
        ensures
            r == Self::spec_from_id(id@),
    {
        if str_eq(id, "glm-4.5-32k") {
            GlmModel::Glm4532K
        } else if str_eq(id, "glm-4.5-turbo") {
            GlmModel::Glm45Turbo
        } else {
            GlmModel::Glm45
        }
    }
}

impl Default for GlmModel {
    fn default() -> (r: Self)
        ensures
            r == GlmModel::Glm45,
    {
        Self::Glm45
    }
}

/// Who speaks in a chat message.
#[derive(Debug, Clone, Copy, PartialEq, Eq, Structural)]
pub enum Role {
    System,
    User,
    Assistant,
}

/// One tool invocation requested by the model.
#[derive(Debug, Clone)]
pub struct ToolCall {
    pub id: String,
    pub call_type: String,
    pub function: FunctionCall,
}

/// The function a tool call names, with its serialized arguments.
#[derive(Debug, Clone)]
pub struct FunctionCall {
    pub name: String,
    pub arguments: String,
}

/// The outcome a caller reports for one tool call.
#[derive(Debug, Clone)]
pub struct ToolCallResult {
    pub tool_call_id: String,
    pub output: String,
    pub error: Option<String>,
}

/// Either plain text or a list of tool calls.
#[derive(Debug, Clone)]
pub enum MessageContent {
    Text(String),
    ToolCalls(Vec<ToolCall>),
}

/// One conversation turn.
#[derive(Debug, Clone)]
pub struct Message {
    pub role: Role,
    pub content: Option<String>,
    pub tool_calls: Option<Vec<ToolCall>>,
    pub tool_call_id: Option<String>,
    pub thinking: Option<String>,
}

impl Message {
    /// An assistant turn carries text or tool calls, never meaningfully
    /// both; a tool result carries its back-reference and text.
    pub open spec fn wf(&self) -> bool {
        self.role == Role::Assistant ==> !(self.content is Some && self.tool_calls is Some)
    }

    pub fn system(content: String) -> (r: Self)
        ensures
            r.role == Role::System,
            r.content == Some(content),
            r.tool_calls is None,
            r.tool_call_id is None,
            r.thinking is None,
            r.wf(),
    {
        Self {
            role: Role::System,
            content: Some(content),
            tool_calls: None,
            tool_call_id: None,
            thinking: None,
        }
    }

    pub fn user(content: String) -> (r: Self)
        ensures
            r.role == Role::User,
            r.content == Some(content),
            r.tool_calls is None,
            r.tool_call_id is None,
            r.thinking is None,
            r.wf(),
    {
        Self {
            role: Role::User,
            content: Some(content),
            tool_calls: None,
            tool_call_id: None,
            thinking: None,
        }
    }

    pub fn assistant(content: String) -> (r: Self)
        ensures
            r.role == Role::Assistant,
            r.content == Some(content),
            r.tool_calls is None,
            r.tool_call_id is None,
            r.thinking is None,
            r.wf(),
    {
        Self {
            role: Role::Assistant,
            content: Some(content),
            tool_calls: None,
            tool_call_id: None,
            thinking: None,
        }
    }

    pub fn assistant_with_tool_calls(tool_calls: Vec<ToolCall>) -> (r: Self)
        ensures
            r.role == Role::Assistant,
            r.content is None,
            r.tool_calls == Some(tool_calls),
            r.tool_call_id is None,
            r.thinking is None,
            r.wf(),
    {
        Self {
            role: Role::Assistant,
            content: None,
            tool_calls: Some(tool_calls),
            tool_call_id: None,
            thinking: None,
        }
    }

    /// Tool results travel as system messages that carry the id of the
    /// call they answer.
    pub fn tool_result(tool_call_id: String, content: String) -> (r: Self)
        ensures
            r.role == Role::System,
            r.content == Some(content),
            r.tool_calls is None,
            r.tool_call_id == Some(tool_call_id),
            r.thinking is None,
            r.wf(),
    {
        Self {
            role: Role::System,
            content: Some(content),
            tool_calls: None,
            tool_call_id: Some(tool_call_id),
            thinking: None,
        }
    }

    pub fn with_thinking(self, thinking: String) -> (r: Self)
        ensures
            r == (Message { thinking: Some(thinking), ..self }),
    {
        Message { thinking: Some(thinking), ..self }
    }
}

/// Whether the model's internal reasoning mode is requested.
#[derive(Debug, Clone, Copy, PartialEq, Eq, Structural)]
pub enum ThinkingType {
    Enabled,
    Disabled,
}

#[derive(Debug, Clone, Copy, PartialEq, Eq, Structural)]
pub struct ThinkingConfig {
    pub thinking_type: ThinkingType,
}

impl Default for ThinkingConfig {
    fn default() -> (r: Self)
        ensures
            r.thinking_type == ThinkingType::Enabled,
    {
        Self { thinking_type: ThinkingType::Enabled }
    }
}

/// A function the model may call, with its JSON-schema parameters.
#[derive(Debug, Clone)]
pub struct FunctionDefinition {
    pub name: String,
    pub description: String,
    pub parameters: JsonValue,
}

/// A tool offered to the model; the service knows only function tools.
#[derive(Debug, Clone)]
pub struct ToolDefinition {
    pub tool_type: String,
    pub function: FunctionDefinition,
}

impl ToolDefinition {
    pub fn new_function(name: String, description: String, parameters: JsonValue) -> (r: Self)
        ensures
            r.tool_type@ == "function"@,
            r.function.name == name,
            r.function.description == description,
            r.function.parameters == parameters,
    {
        Self {
            tool_type: "function".to_owned(),
            function: FunctionDefinition { name, description, parameters },
        }
    }
}

/// How the model may choose among the offered tools.
#[derive(Debug, Clone)]
pub enum ToolChoice {
    NoTools(String),
    Auto(String),
    Required(String),
    Specific { tool_type: String, function: SpecificFunction },
}

#[derive(Debug, Clone)]
pub struct SpecificFunction {
    pub name: String,
}

impl ToolChoice {
    pub fn none() -> (r: Self)
        ensures
            r matches ToolChoice::NoTools(s) && s@ == "none"@,
    {
        Self::NoTools("none".to_owned())
    }

    pub fn auto() -> (r: Self)
        ensures
            r matches ToolChoice::Auto(s) && s@ == "auto"@,
    {
        Self::Auto("auto".to_owned())
    }

    pub fn required() -> (r: Self)
        ensures
            r matches ToolChoice::Required(s) && s@ == "required"@,
    {
        Self::Required("required".to_owned())
    }

    pub fn specific_function(name: String) -> (r: Self)
        ensures
            r matches ToolChoice::Specific { tool_type, function }
                && tool_type@ == "function"@ && function.name == name,
    {
        Self::Specific {
            tool_type: "function".to_owned(),
            function: SpecificFunction { name },
        }
    }
}

/// One chat-completion request, immutable once sent. Built fresh per call
/// from the configuration plus the message list.
#[derive(Debug, Clone)]
pub struct ChatCompletionRequest {
    pub model: String,
    pub messages: Vec<Message>,
    pub thinking: Option<ThinkingConfig>,
    pub tools: Option<Vec<ToolDefinition>>,
    pub tool_choice: Option<ToolChoice>,
    pub stream: Option<bool>,
    pub max_tokens: Option<u32>,
    /// Sampling temperature in thousandths; 700 stands for 0.7.
    pub temperature: Option<u32>,
    /// Nucleus-sampling bound in thousandths; 900 stands for 0.9.
    pub top_p: Option<u32>,
    pub user: Option<String>,
}

impl ChatCompletionRequest {
    pub fn new(model: String, messages: Vec<Message>) -> (r: Self)
        ensures
            r.model == model,
            r.messages == messages,
            r.thinking == Some(ThinkingConfig { thinking_type: ThinkingType::Enabled }),
            r.tools is None,
            r.tool_choice is None,
            r.stream is None,
            r.max_tokens is None,
            r.temperature is None,
            r.top_p is None,
            r.user is None,
    {
        Self {
            model,
            messages,
            thinking: Some(ThinkingConfig::default()),
            tools: None,
            tool_choice: None,
            stream: None,
            max_tokens: None,
            temperature: None,
            top_p: None,
            user: None,
        }
    }

    pub fn with_stream(self, stream: bool) -> (r: Self)
        ensures
            r == (ChatCompletionRequest { stream: Some(stream), ..self }),
    {
        ChatCompletionRequest { stream: Some(stream), ..self }
    }

    pub fn with_max_tokens(self, max_tokens: u32) -> (r: Self)
        ensures
            r == (ChatCompletionRequest { max_tokens: Some(max_tokens), ..self }),
    {
        ChatCompletionRequest { max_tokens: Some(max_tokens), ..self }
    }

    /// The temperature to request, in thousandths.
    pub fn with_temperature(self, temperature: u32) -> (r: Self)
        ensures
            r == (ChatCompletionRequest { temperature: Some(temperature), ..self }),
    {
        ChatCompletionRequest { temperature: Some(temperature), ..self }
    }

    /// The nucleus-sampling bound to request, in thousandths.
    pub fn with_top_p(self, top_p: u32) -> (r: Self)
        ensures
            r == (ChatCompletionRequest { top_p: Some(top_p), ..self }),
    {
        ChatCompletionRequest { top_p: Some(top_p), ..self }
    }

    pub fn with_thinking(self, enabled: bool) -> (r: Self)
        ensures
            r == (ChatCompletionRequest {
                thinking: Some(
                    ThinkingConfig {
                        thinking_type: if enabled {
                            ThinkingType::Enabled
                        } else {
                            ThinkingType::Disabled
                        },
                    },
                ),
                ..self
            }),
    {
        ChatCompletionRequest {
            thinking: Some(
                ThinkingConfig {
                    thinking_type: if enabled {
                        ThinkingType::Enabled
                    } else {
                        ThinkingType::Disabled
                    },
                },
            ),
            ..self
        }
    }

    pub fn with_user(self, user: String) -> (r: Self)
        ensures
            r == (ChatCompletionRequest { user: Some(user), ..self }),
    {
        ChatCompletionRequest { user: Some(user), ..self }
    }
}

/// Token accounting of a terminal, non-streaming response.
#[derive(Debug, Clone, Copy, PartialEq, Eq, Structural)]
pub struct Usage {
    pub prompt_tokens: u32,
    pub completion_tokens: u32,
    pub total_tokens: u32,
}

/// One alternative completion in a non-streaming response.
#[derive(Debug, Clone)]
pub struct Choice {
    pub index: u32,
    pub message: Message,
    pub finish_reason: Option<String>,
}

/// The partial content or role carried by one streaming chunk's choice.
#[derive(Debug, Clone)]
pub struct Delta {
    pub content: Option<String>,
    pub role: Option<Role>,
}

/// One alternative completion inside a streaming chunk. A set
/// `finish_reason` marks the logical end of that choice's stream.
#[derive(Debug, Clone)]
pub struct StreamChoice {
    pub index: u32,
    pub delta: Delta,
    pub finish_reason: Option<String>,
}

/// A complete, non-streaming completion.
#[derive(Debug, Clone)]
pub struct ChatCompletionResponse {
    pub id: String,
    pub object: String,
    pub created: u64,
    pub model: String,
    pub choices: Vec<Choice>,
    pub usage: Option<Usage>,
}

/// One streaming chunk: the response envelope around partial deltas.
#[derive(Debug, Clone)]
pub struct StreamingChatCompletionResponse {
    pub id: String,
    pub object: String,
    pub created: u64,
    pub model: String,
    pub choices: Vec<StreamChoice>,
}

/// The client configuration, owned for the client's lifetime and never
/// mutated after construction.
#[derive(Debug, Clone)]
pub struct GlmConfig {
    pub api_key: String,
    pub api_url: String,
    pub model: GlmModel,
    pub max_tokens: u32,
    /// Default sampling temperature in thousandths.
    pub temperature: u32,
    /// Default nucleus-sampling bound in thousandths.
    pub top_p: u32,
    pub stream: bool,
    pub thinking_enabled: bool,
    /// Request timeout in whole seconds.
    pub timeout_secs: u64,
}

impl Default for GlmConfig {
    fn default() -> (r: Self)
        ensures
            r.api_key@ == Seq::<char>::empty(),
            r.api_url@ == "https://api.z.ai/v1"@,
            r.model == GlmModel::Glm45,
            r.max_tokens == 4096,
            r.temperature == 700,
            r.top_p == 900,
            r.stream == false,
            r.thinking_enabled == true,
            r.timeout_secs == 30,
    {
        Self {
            api_key: String::new(),
            api_url: "https://api.z.ai/v1".to_owned(),
            model: GlmModel::Glm45,
            max_tokens: 4096,
            temperature: 700,
            top_p: 900,
            stream: false,
            thinking_enabled: true,
            timeout_secs: 30,
        }
    }
}

impl GlmConfig {
    /// Assembles a configuration from raw environment values, applying the
    /// documented default wherever a variable is absent or unreadable. The
    /// API key is the one value that must be present.
    pub fn from_values(
        api_key: Option<String>,
        api_url: Option<String>,
        model: Option<String>,
        max_tokens: Option<String>,
        temperature: Option<u32>,
        top_p: Option<u32>,
        stream: Option<String>,
        thinking_enabled: Option<String>,
    ) -> (r: Result<Self, GlmError>)
        ensures
            api_key is None ==> (r matches Err(e) && e matches GlmError::ConfigError { .. }),
            api_key matches Some(key) ==> r matches Ok(c) && {
                &&& c.api_key == key
                &&& (api_url matches Some(u) ==> c.api_url == u)
                &&& (api_url is None ==> c.api_url@ == "https://api.z.ai/v1"@)
                &&& (model matches Some(m) ==> c.model == GlmModel::spec_from_id(m@))
                &&& (model is None ==> c.model == GlmModel::Glm45)
                &&& c.max_tokens == spec_parse_or(max_tokens, 4096)
                &&& c.temperature == (match temperature { Some(t) => t, None => 700u32 })
                &&& c.top_p == (match top_p { Some(t) => t, None => 900u32 })
                &&& c.stream == spec_parse_bool_or(stream, false)
                &&& c.thinking_enabled == spec_parse_bool_or(thinking_enabled, true)
                &&& c.timeout_secs == 30
            },
    {
        let key = match api_key {
            Some(k) => k,
            None => {
                return Err(
                    GlmError::ConfigError { message: "GLM_API_KEY not set".to_owned() },
                );
            },
        };
        let url = match api_url {
            Some(u) => u,
            None => "https://api.z.ai/v1".to_owned(),
        };
        let model_value = match &model {
            Some(m) => GlmModel::from_id(m.as_str()),
            None => GlmModel::Glm45,
        };
        let max_tokens_value = match &max_tokens {
            Some(s) => match parse_u32(s.as_str()) {
                Some(v) => v,
                None => 4096,
            },
            None => 4096,
        };
        let stream_value = match &stream {
            Some(s) => match parse_bool(s.as_str()) {
                Some(v) => v,
                None => false,
            },
            None => false,
        };
        let thinking_value = match &thinking_enabled {
            Some(s) => match parse_bool(s.as_str()) {
                Some(v) => v,
                None => true,
            },
            None => true,
        };
        Ok(
            Self {
                api_key: key,
                api_url: url,
                model: model_value,
                max_tokens: max_tokens_value,
                temperature: if let Some(t) = temperature { t } else { 700 },
                top_p: if let Some(t) = top_p { t } else { 900 },
                stream: stream_value,
                thinking_enabled: thinking_value,
                timeout_secs: 30,
            },
        )
    }

    pub fn with_api_key(self, api_key: String) -> (r: Self)
        ensures
            r == (GlmConfig { api_key, ..self }),
    {
        GlmConfig { api_key, ..self }
    }

    pub fn with_model(self, model: GlmModel) -> (r: Self)
        ensures
            r == (GlmConfig { model, ..self }),
    {
        GlmConfig { model, ..self }
    }

    pub fn with_stream(self, stream: bool) -> (r: Self)
        ensures
            r == (GlmConfig { stream, ..self }),
    {
        GlmConfig { stream, ..self }
    }

    /// The request timeout, in whole seconds.
    pub fn with_timeout(self, timeout_secs: u64) -> (r: Self)
        ensures
            r == (GlmConfig { timeout_secs, ..self }),
    {
        GlmConfig { timeout_secs, ..self }
    }
}

/// What an optional decimal string contributes to a configuration: its
/// value where it reads as one, the default everywhere else.
pub open spec fn spec_parse_or(s: Option<String>, default: u32) -> u32 {
    match s {
        Some(text) => match spec_parse_u32(vstd::utf8::encode_utf8(text@)) {
            Some(v) => v,
            None => default,
        },
        None => default,
    }
}

pub open spec fn spec_parse_bool_or(s: Option<String>, default: bool) -> bool {
    match s {
        Some(text) => if text@ == "true"@ {
            true
        } else if text@ == "false"@ {
            false
        } else {
            default
        },
        None => default,
    }
}

/// A decimal digit byte.
pub open spec fn is_digit_byte(b: u8) -> bool {
    48 <= b <= 57
}

pub open spec fn all_digit_bytes(s: Seq<u8>) -> bool {
    forall|i: int| 0 <= i < s.len() ==> is_digit_byte(#[trigger] s[i])
}

/// The number a sequence of digit bytes denotes.
pub open spec fn dec_val(s: Seq<u8>) -> int
    decreases s.len(),
{
    if s.len() == 0 {
        0
    } else {
        dec_val(s.drop_last()) * 10 + (s.last() - 48)
    }
}

/// The reading of a whole string as a `u32`: defined exactly on nonempty
/// all-digit strings whose value fits.
pub open spec fn spec_parse_u32(s: Seq<u8>) -> Option<u32> {
    if s.len() > 0 && all_digit_bytes(s) && 0 <= dec_val(s) <= u32::MAX {
        Some(dec_val(s) as u32)
    } else {
        None
    }
}

proof fn lemma_dec_val_nonneg(s: Seq<u8>)
    requires
        all_digit_bytes(s),
    ensures
        dec_val(s) >= 0,
    decreases s.len(),
{
    if s.len() > 0 {
        assert(all_digit_bytes(s.drop_last()));
        lemma_dec_val_nonneg(s.drop_last());
        assert(dec_val(s.drop_last()) * 10 >= 0) by (nonlinear_arith)
            requires
                dec_val(s.drop_last()) >= 0,
        ;
    }
}

proof fn lemma_dec_val_prefix_le(s: Seq<u8>, i: int)
    requires
        0 <= i <= s.len(),
        all_digit_bytes(s),
    ensures
        dec_val(s.subrange(0, i)) <= dec_val(s),
    decreases s.len() - i,
{
    if i < s.len() {
        lemma_dec_val_prefix_le(s, i + 1);
        assert(s.subrange(0, i + 1).drop_last() =~= s.subrange(0, i));
        assert(dec_val(s.subrange(0, i + 1)) == dec_val(s.subrange(0, i)) * 10 + (s[i] - 48));
        assert(all_digit_bytes(s.subrange(0, i)));
        lemma_dec_val_nonneg(s.subrange(0, i));
        assert(dec_val(s.subrange(0, i)) <= dec_val(s.subrange(0, i)) * 10) by (nonlinear_arith)
            requires
                dec_val(s.subrange(0, i)) >= 0,
        ;
    } else {
        assert(s.subrange(0, i) =~= s);
    }
}

/// Reads a whole string as an unsigned decimal number: `Some` exactly on
/// nonempty all-digit strings whose value fits in a `u32`.
#[verifier::loop_isolation(false)]
pub fn parse_u32(s: &str) -> (r: Option<u32>)
    ensures
        r == spec_parse_u32(s.spec_bytes()),
{
    let bytes = s.as_bytes();
    if bytes.len() == 0 {
        return None;
    }
    let ghost bs = s.spec_bytes();
    let mut acc: u64 = 0;
    let mut i: usize = 0;
    while i < bytes.len()
        invariant
            bytes@ == bs,
            0 < bytes@.len(),
            i <= bytes@.len(),
            all_digit_bytes(bs.subrange(0, i as int)),
            acc == dec_val(bs.subrange(0, i as int)),
            acc <= u32::MAX,
        decreases bytes@.len() - i,
    {
        let b = bytes[i];
        if b < 48 || b > 57 {
            proof {
                assert(bs[i as int] == b);
                assert(!is_digit_byte(bs[i as int]));
                assert(!all_digit_bytes(bs));
            }
            return None;
        }
        let next: u64 = acc * 10 + ((b - 48) as u64);
        proof {
            assert(bs.subrange(0, i + 1).drop_last() =~= bs.subrange(0, i as int));
            assert(dec_val(bs.subrange(0, i + 1)) == acc * 10 + (b - 48));
        }
        if next > 0xffff_ffff {
            proof {
                if all_digit_bytes(bs) {
                    lemma_dec_val_prefix_le(bs, i + 1);
                }
            }
            return None;
        }
        acc = next;
        i = i + 1;
    }
    proof {
        assert(bs.subrange(0, bs.len() as int) =~= bs);
    }
    Some(acc as u32)
}

/// Reads `"true"` or `"false"`; anything else is unreadable.
pub fn parse_bool(s: &str) -> (r: Option<bool>)
    ensures
        s@ == "true"@ ==> r == Some(true),
        s@ == "false"@ ==> r == Some(false),
        s@ != "true"@ && s@ != "false"@ ==> r is None,
{
    proof {
        broadcast use vstd::string::group_string_axioms;

        reveal_strlit("true");
        reveal_strlit("false");
        assert("true"@.len() == 4);
        assert("false"@.len() == 5);
    }
    if str_eq(s, "true") {
        Some(true)
    } else if str_eq(s, "false") {
        Some(false)
    } else {
        None
    }
}

} // verus!
