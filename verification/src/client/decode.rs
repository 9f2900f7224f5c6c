//! Decoding of service responses: JSON bodies are parsed by `serde_json`
//! behind trusted declarations, and the resulting document is walked by
//! verified code into the typed model.
//!
//! A parsed `serde_json::Value` is opaque, so two names give it a
//! model: `json_doc` is the library's document a byte body parses to,
//! and `value_model` is the document a parsed value stands for. The
//! trusted accessors state what they return over that model, which lets
//! every walker say exactly which typed value it builds: the `reads_*`
//! predicates below relate a document to the one typed value it can be
//! read as, tolerating explicit `null` where the wire sends it.

use vstd::prelude::*;
use crate::json::JsonValue;
use crate::client::error::{ApiErrorDetails, GlmError};
use crate::client::types::{
    ChatCompletionResponse, Choice, Delta, FunctionCall, Message, Role,
    StreamChoice, StreamingChatCompletionResponse, ToolCall, Usage,
};

verus! {

#[verifier::external_type_specification]
#[verifier::external_body]
pub struct ExValue(serde_json::Value);

/// Whether `serde_json` accepts these bytes as one JSON document. The
/// outcome depends on the bytes alone.
pub uninterp spec fn json_parses(bytes: Seq<u8>) -> bool;

/// The document a byte body parses to, as the library's own tree:
/// null, booleans, unsigned integers, strings, arrays and objects map
/// to their counterparts; a number outside `u64` has no reading the
/// walkers use. Defined wherever `json_parses` holds; a function of the
/// bytes alone.
pub uninterp spec fn json_doc(bytes: Seq<u8>) -> JsonValue;

/// The document a parsed value stands for, under the same mirror as
/// `json_doc`: a function of the value's JSON structure alone.
pub uninterp spec fn value_model(v: serde_json::Value) -> JsonValue;

/// Relies on serde_json::from_slice::<Value>: parses one JSON document;
/// success, and the document that comes back, are functions of the
/// bytes alone.
#[verifier::external_body]
pub(crate) fn parse_json(bytes: &[u8]) -> (r: Option<serde_json::Value>)
    ensures
        r is Some <==> json_parses(bytes@),
        r matches Some(v) ==> value_model(v) == json_doc(bytes@),
{
    serde_json::from_slice::<serde_json::Value>(bytes).ok()
}

/// Relies on serde_json::Value::get: the value under a key of a JSON
/// object (whose keys are unique after parsing), `None` for a missing
/// key or a non-object.
#[verifier::external_body]
fn json_get<'a>(v: &'a serde_json::Value, key: &str) -> (r: Option<&'a serde_json::Value>)
    ensures
        r matches Some(w) ==> value_model(*v).spec_get(key@) == Some(value_model(*w)),
        r is None ==> value_model(*v).spec_get(key@) is None,
{
    v.get(key)
}

/// Relies on serde_json::Value::as_str: the text of a JSON string
/// value, and nothing for any other shape.
#[verifier::external_body]
fn json_as_str<'a>(v: &'a serde_json::Value) -> (r: Option<&'a str>)
    ensures
        r matches Some(s) ==> (value_model(*v) matches JsonValue::Str(w) && w@ == s@),
        r is None ==> !(value_model(*v) is Str),
{
    v.as_str()
}

/// Relies on serde_json::Value::as_u64: the value of a JSON number that
/// is a non-negative integer within `u64`, and nothing otherwise.
#[verifier::external_body]
fn json_as_u64(v: &serde_json::Value) -> (r: Option<u64>)
    ensures
        r matches Some(n) ==> value_model(*v) == JsonValue::UInt(n),
        r is None ==> !(value_model(*v) is UInt),
{
    v.as_u64()
}

/// Relies on serde_json::Value::as_array: the elements of a JSON array,
/// in order, and nothing for any other shape.
#[verifier::external_body]
fn json_as_array<'a>(v: &'a serde_json::Value) -> (r: Option<&'a Vec<serde_json::Value>>)
    ensures
        r matches Some(items) ==> (value_model(*v) matches JsonValue::Arr(m) && m@.len()
            == items@.len() && (forall|i: int|
            0 <= i < items@.len() ==> value_model(#[trigger] items@[i]) == m@[i])),
        r is None ==> !(value_model(*v) is Arr),
{
    v.as_array()
}

/// Relies on serde_json::Value::is_null: whether the value is JSON null.
#[verifier::external_body]
fn json_is_null(v: &serde_json::Value) -> (r: bool)
    ensures
        r == (value_model(*v) is Null),
{
    v.is_null()
}

// --- What a document reads as, field by field ---

/// An optional text field as the wire sends it: present as a string, or
/// absent, or an explicit null.
pub open spec fn reads_opt_str(doc: JsonValue, key: Seq<char>, o: Option<String>) -> bool {
    match o {
        Some(s) => (match doc.spec_get(key) {
            Some(JsonValue::Str(w)) => w@ == s@,
            _ => false,
        }),
        None => doc.spec_get(key) is None || doc.spec_get(key) == Some(JsonValue::Null),
    }
}

/// A required text field.
pub open spec fn reads_str(doc: JsonValue, key: Seq<char>, s: String) -> bool {
    match doc.spec_get(key) {
        Some(JsonValue::Str(w)) => w@ == s@,
        _ => false,
    }
}

pub open spec fn reads_tool_call(doc: JsonValue, tc: ToolCall) -> bool {
    &&& reads_str(doc, "id"@, tc.id)
    &&& reads_str(doc, "type"@, tc.call_type)
    &&& (match doc.spec_get("function"@) {
        Some(f) => reads_str(f, "name"@, tc.function.name) && reads_str(
            f,
            "arguments"@,
            tc.function.arguments,
        ),
        None => false,
    })
}

/// Whether a value is the string naming this role.
pub open spec fn is_role_value(doc: JsonValue, role: Role) -> bool {
    match doc {
        JsonValue::Str(s) => s@ == crate::client::codec::spec_role_str(role),
        _ => false,
    }
}

pub open spec fn reads_role(doc: JsonValue, key: Seq<char>, role: Role) -> bool {
    match doc.spec_get(key) {
        Some(w) => is_role_value(w, role),
        None => false,
    }
}

/// How the optional `tool_calls` field reads: an array of tool calls,
/// or absent, or null.
pub open spec fn tool_calls_field_reads(
    doc: JsonValue,
    key: Seq<char>,
    tcs: Option<Vec<ToolCall>>,
) -> bool {
    match tcs {
        Some(list) => (match doc.spec_get(key) {
            Some(JsonValue::Arr(items)) => items@.len() == list@.len() && (forall|i: int|
                0 <= i < list@.len() ==> reads_tool_call(#[trigger] items@[i], list@[i])),
            _ => false,
        }),
        None => doc.spec_get(key) is None || doc.spec_get(key) == Some(JsonValue::Null),
    }
}

pub open spec fn reads_message(doc: JsonValue, m: Message) -> bool {
    &&& reads_role(doc, "role"@, m.role)
    &&& reads_opt_str(doc, "content"@, m.content)
    &&& tool_calls_field_reads(doc, "tool_calls"@, m.tool_calls)
    &&& reads_opt_str(doc, "tool_call_id"@, m.tool_call_id)
    &&& reads_opt_str(doc, "thinking"@, m.thinking)
}

pub open spec fn reads_choice(doc: JsonValue, c: Choice) -> bool {
    &&& doc.spec_get("index"@) == Some(JsonValue::UInt(c.index as u64))
    &&& (match doc.spec_get("message"@) {
        Some(m) => reads_message(m, c.message),
        None => false,
    })
    &&& reads_opt_str(doc, "finish_reason"@, c.finish_reason)
}

pub open spec fn reads_usage(doc: JsonValue, u: Usage) -> bool {
    &&& doc.spec_get("prompt_tokens"@) == Some(JsonValue::UInt(u.prompt_tokens as u64))
    &&& doc.spec_get("completion_tokens"@) == Some(JsonValue::UInt(u.completion_tokens as u64))
    &&& doc.spec_get("total_tokens"@) == Some(JsonValue::UInt(u.total_tokens as u64))
}

/// What a complete, non-streaming completion body holds.
pub open spec fn reads_response(doc: JsonValue, r: ChatCompletionResponse) -> bool {
    &&& reads_str(doc, "id"@, r.id)
    &&& reads_str(doc, "object"@, r.object)
    &&& doc.spec_get("created"@) == Some(JsonValue::UInt(r.created))
    &&& reads_str(doc, "model"@, r.model)
    &&& (match doc.spec_get("choices"@) {
        Some(JsonValue::Arr(items)) => items@.len() == r.choices@.len() && (forall|i: int|
            0 <= i < r.choices@.len() ==> reads_choice(#[trigger] items@[i], r.choices@[i])),
        _ => false,
    })
    &&& (match r.usage {
        Some(u) => (match doc.spec_get("usage"@) {
            Some(ud) => !(ud is Null) && reads_usage(ud, u),
            None => false,
        }),
        None => doc.spec_get("usage"@) is None || doc.spec_get("usage"@) == Some(JsonValue::Null),
    })
}

pub open spec fn reads_delta(doc: JsonValue, d: Delta) -> bool {
    &&& reads_opt_str(doc, "content"@, d.content)
    &&& (match d.role {
        Some(role) => reads_role(doc, "role"@, role),
        None => doc.spec_get("role"@) is None || doc.spec_get("role"@) == Some(JsonValue::Null),
    })
}

pub open spec fn reads_stream_choice(doc: JsonValue, c: StreamChoice) -> bool {
    &&& doc.spec_get("index"@) == Some(JsonValue::UInt(c.index as u64))
    &&& (match doc.spec_get("delta"@) {
        Some(d) => reads_delta(d, c.delta),
        None => false,
    })
    &&& reads_opt_str(doc, "finish_reason"@, c.finish_reason)
}

/// What one streaming payload holds.
pub open spec fn reads_chunk(doc: JsonValue, c: StreamingChatCompletionResponse) -> bool {
    &&& reads_str(doc, "id"@, c.id)
    &&& reads_str(doc, "object"@, c.object)
    &&& doc.spec_get("created"@) == Some(JsonValue::UInt(c.created))
    &&& reads_str(doc, "model"@, c.model)
    &&& (match doc.spec_get("choices"@) {
        Some(JsonValue::Arr(items)) => items@.len() == c.choices@.len() && (forall|i: int|
            0 <= i < c.choices@.len() ==> reads_stream_choice(
                #[trigger] items@[i],
                c.choices@[i],
            )),
        _ => false,
    })
}

/// What the structured error envelope `{"error": {...}}` holds.
pub open spec fn reads_envelope(doc: JsonValue, d: ApiErrorDetails) -> bool {
    match doc.spec_get("error"@) {
        Some(e) => {
            &&& reads_str(e, "message"@, d.message)
            &&& reads_opt_str(e, "type"@, d.error_type)
            &&& reads_opt_str(e, "code"@, d.code)
            &&& reads_opt_str(e, "param"@, d.param)
        },
        None => false,
    }
}

// --- Verified walkers from a parsed value to the typed model ---

/// A required string field: the text under the key, when it is one.
pub(crate) fn value_get_string(v: &serde_json::Value, key: &str) -> (r: Option<String>)
    ensures
        r matches Some(s) ==> reads_str(value_model(*v), key@, s),
        r is None ==> (forall|s: String| !reads_str(value_model(*v), key@, s)),
{
    match json_get(v, key) {
        Some(field) => match json_as_str(field) {
            Some(s) => Some(s.to_owned()),
            None => None,
        },
        None => None,
    }
}

/// An optional string field: absent and null both read as `None`; a
/// present non-string, non-null value is a shape error.
fn get_opt_string(v: &serde_json::Value, key: &str) -> (r: Result<Option<String>, ()>)
    ensures
        r matches Ok(o) ==> reads_opt_str(value_model(*v), key@, o),
        r is Err ==> (forall|o: Option<String>| !reads_opt_str(value_model(*v), key@, o)),
{
    match json_get(v, key) {
        Some(field) => {
            if json_is_null(field) {
                Ok(None)
            } else {
                match json_as_str(field) {
                    Some(s) => Ok(Some(s.to_owned())),
                    None => Err(()),
                }
            }
        },
        None => Ok(None),
    }
}

fn get_u64(v: &serde_json::Value, key: &str) -> (r: Option<u64>)
    ensures
        r matches Some(n) ==> value_model(*v).spec_get(key@) == Some(JsonValue::UInt(n)),
        r is None ==> !(value_model(*v).spec_get(key@) matches Some(JsonValue::UInt(_))),
{
    match json_get(v, key) {
        Some(field) => json_as_u64(field),
        None => None,
    }
}

fn get_u32(v: &serde_json::Value, key: &str) -> (r: Option<u32>)
    ensures
        r matches Some(n) ==> value_model(*v).spec_get(key@) == Some(
            JsonValue::UInt(n as u64),
        ),
        r is None ==> (match value_model(*v).spec_get(key@) {
            Some(JsonValue::UInt(n)) => n > u32::MAX,
            _ => true,
        }),
{
    match get_u64(v, key) {
        Some(n) => {
            if n <= 0xffff_ffff {
                Some(n as u32)
            } else {
                None
            }
        },
        None => None,
    }
}

/// The role names the wire uses.
fn role_from_value(v: &serde_json::Value) -> (r: Option<Role>)
    ensures
        r matches Some(role) ==> is_role_value(value_model(*v), role),
        r is None ==> (forall|role: Role| !is_role_value(value_model(*v), role)),
{
    match json_as_str(v) {
        Some(s) => {
            if crate::client::error::str_eq(s, "system") {
                Some(Role::System)
            } else if crate::client::error::str_eq(s, "user") {
                Some(Role::User)
            } else if crate::client::error::str_eq(s, "assistant") {
                Some(Role::Assistant)
            } else {
                proof {
                    assert forall|role: Role| !is_role_value(value_model(*v), role) by {
                        match role {
                            Role::System => {},
                            Role::User => {},
                            Role::Assistant => {},
                        }
                    }
                }
                None
            }
        },
        None => None,
    }
}

fn value_to_tool_call(v: &serde_json::Value) -> (r: Option<ToolCall>)
    ensures
        r matches Some(tc) ==> reads_tool_call(value_model(*v), tc),
        r is None ==> (forall|tc: ToolCall| !reads_tool_call(value_model(*v), tc)),
{
    let id = match value_get_string(v, "id") {
        Some(s) => s,
        None => {
            return None;
        },
    };
    let call_type = match value_get_string(v, "type") {
        Some(s) => s,
        None => {
            return None;
        },
    };
    let function = match json_get(v, "function") {
        Some(f) => {
            let name = match value_get_string(f, "name") {
                Some(s) => s,
                None => {
                    return None;
                },
            };
            let arguments = match value_get_string(f, "arguments") {
                Some(s) => s,
                None => {
                    return None;
                },
            };
            FunctionCall { name, arguments }
        },
        None => {
            return None;
        },
    };
    Some(ToolCall { id, call_type, function })
}

#[verifier::loop_isolation(false)]
fn value_to_tool_calls(v: &serde_json::Value, key: &str) -> (r: Result<Option<Vec<ToolCall>>, ()>)
    ensures
        r matches Ok(o) ==> tool_calls_field_reads(value_model(*v), key@, o),
        r is Err ==> (forall|tcs: Option<Vec<ToolCall>>|
            !tool_calls_field_reads(value_model(*v), key@, tcs)),
{
    match json_get(v, key) {
        Some(field) => {
            if json_is_null(field) {
                return Ok(None);
            }
            let items = match json_as_array(field) {
                Some(items) => items,
                None => {
                    return Err(());
                },
            };
            let mut out: Vec<ToolCall> = Vec::new();
            let mut i: usize = 0;
            while i < items.len()
                invariant
                    i <= items@.len(),
                    out@.len() == i,
                    forall|j: int|
                        0 <= j < i ==> reads_tool_call(
                            value_model(#[trigger] items@[j]),
                            out@[j],
                        ),
                decreases items@.len() - i,
            {
                match value_to_tool_call(&items[i]) {
                    Some(tc) => out.push(tc),
                    None => {
                        return Err(());
                    },
                }
                i = i + 1;
            }
            proof {
                let fm = value_model(*field);
                assert forall|j: int| 0 <= j < out@.len() implies reads_tool_call(
                    fm->Arr_0@[j],
                    out@[j],
                ) by {
                    assert(value_model(items@[j]) == fm->Arr_0@[j]);
                }
            }
            Ok(Some(out))
        },
        None => Ok(None),
    }
}

fn value_to_message(v: &serde_json::Value) -> (r: Option<Message>)
    ensures
        r matches Some(m) ==> reads_message(value_model(*v), m),
        r is None ==> (forall|m: Message| !reads_message(value_model(*v), m)),
{
    let role = match json_get(v, "role") {
        Some(f) => match role_from_value(f) {
            Some(role) => role,
            None => {
                return None;
            },
        },
        None => {
            return None;
        },
    };
    let content = match get_opt_string(v, "content") {
        Ok(c) => c,
        Err(()) => {
            return None;
        },
    };
    let tool_calls = match value_to_tool_calls(v, "tool_calls") {
        Ok(tc) => tc,
        Err(()) => {
            return None;
        },
    };
    let tool_call_id = match get_opt_string(v, "tool_call_id") {
        Ok(t) => t,
        Err(()) => {
            return None;
        },
    };
    let thinking = match get_opt_string(v, "thinking") {
        Ok(t) => t,
        Err(()) => {
            return None;
        },
    };
    Some(Message { role, content, tool_calls, tool_call_id, thinking })
}

fn value_to_choice(v: &serde_json::Value) -> (r: Option<Choice>)
    ensures
        r matches Some(c) ==> reads_choice(value_model(*v), c),
        r is None ==> (forall|c: Choice| !reads_choice(value_model(*v), c)),
{
    let index = match get_u32(v, "index") {
        Some(n) => n,
        None => {
            return None;
        },
    };
    let message = match json_get(v, "message") {
        Some(m) => match value_to_message(m) {
            Some(parsed) => parsed,
            None => {
                return None;
            },
        },
        None => {
            return None;
        },
    };
    let finish_reason = match get_opt_string(v, "finish_reason") {
        Ok(f) => f,
        Err(()) => {
            return None;
        },
    };
    Some(Choice { index, message, finish_reason })
}

fn value_to_usage(v: &serde_json::Value) -> (r: Option<Usage>)
    ensures
        r matches Some(u) ==> reads_usage(value_model(*v), u),
        r is None ==> (forall|u: Usage| !reads_usage(value_model(*v), u)),
{
    let prompt_tokens = match get_u32(v, "prompt_tokens") {
        Some(n) => n,
        None => {
            return None;
        },
    };
    let completion_tokens = match get_u32(v, "completion_tokens") {
        Some(n) => n,
        None => {
            return None;
        },
    };
    let total_tokens = match get_u32(v, "total_tokens") {
        Some(n) => n,
        None => {
            return None;
        },
    };
    Some(Usage { prompt_tokens, completion_tokens, total_tokens })
}

#[verifier::loop_isolation(false)]
fn value_to_response(v: &serde_json::Value) -> (r: Option<ChatCompletionResponse>)
    ensures
        r matches Some(resp) ==> reads_response(value_model(*v), resp),
        r is None ==> (forall|resp: ChatCompletionResponse|
            !reads_response(value_model(*v), resp)),
{
    let id = match value_get_string(v, "id") {
        Some(s) => s,
        None => {
            return None;
        },
    };
    let object = match value_get_string(v, "object") {
        Some(s) => s,
        None => {
            return None;
        },
    };
    let created = match get_u64(v, "created") {
        Some(n) => n,
        None => {
            return None;
        },
    };
    let model = match value_get_string(v, "model") {
        Some(s) => s,
        None => {
            return None;
        },
    };
    let choices_field = match json_get(v, "choices") {
        Some(c) => c,
        None => {
            return None;
        },
    };
    let choice_items = match json_as_array(choices_field) {
        Some(items) => items,
        None => {
            return None;
        },
    };
    let mut choices: Vec<Choice> = Vec::new();
    let mut i: usize = 0;
    while i < choice_items.len()
        invariant
            i <= choice_items@.len(),
            choices@.len() == i,
            forall|j: int|
                0 <= j < i ==> reads_choice(
                    value_model(#[trigger] choice_items@[j]),
                    choices@[j],
                ),
        decreases choice_items@.len() - i,
    {
        match value_to_choice(&choice_items[i]) {
            Some(c) => choices.push(c),
            None => {
                return None;
            },
        }
        i = i + 1;
    }
    proof {
        let fm = value_model(*choices_field);
        assert forall|j: int| 0 <= j < choices@.len() implies reads_choice(
            fm->Arr_0@[j],
            choices@[j],
        ) by {
            assert(value_model(choice_items@[j]) == fm->Arr_0@[j]);
        }
    }
    let usage = match json_get(v, "usage") {
        Some(u) => {
            if json_is_null(u) {
                None
            } else {
                match value_to_usage(u) {
                    Some(parsed) => Some(parsed),
                    None => {
                        return None;
                    },
                }
            }
        },
        None => None,
    };
    Some(ChatCompletionResponse { id, object, created, model, choices, usage })
}

fn value_to_delta(v: &serde_json::Value) -> (r: Option<Delta>)
    ensures
        r matches Some(d) ==> reads_delta(value_model(*v), d),
        r is None ==> (forall|d: Delta| !reads_delta(value_model(*v), d)),
{
    let content = match get_opt_string(v, "content") {
        Ok(c) => c,
        Err(()) => {
            return None;
        },
    };
    let role = match json_get(v, "role") {
        Some(f) => {
            if json_is_null(f) {
                None
            } else {
                match role_from_value(f) {
                    Some(parsed) => Some(parsed),
                    None => {
                        return None;
                    },
                }
            }
        },
        None => None,
    };
    Some(Delta { content, role })
}

fn value_to_stream_choice(v: &serde_json::Value) -> (r: Option<StreamChoice>)
    ensures
        r matches Some(c) ==> reads_stream_choice(value_model(*v), c),
        r is None ==> (forall|c: StreamChoice| !reads_stream_choice(value_model(*v), c)),
{
    let index = match get_u32(v, "index") {
        Some(n) => n,
        None => {
            return None;
        },
    };
    let delta = match json_get(v, "delta") {
        Some(d) => match value_to_delta(d) {
            Some(parsed) => parsed,
            None => {
                return None;
            },
        },
        None => {
            return None;
        },
    };
    let finish_reason = match get_opt_string(v, "finish_reason") {
        Ok(f) => f,
        Err(()) => {
            return None;
        },
    };
    Some(StreamChoice { index, delta, finish_reason })
}

#[verifier::loop_isolation(false)]
fn value_to_chunk(v: &serde_json::Value) -> (r: Option<StreamingChatCompletionResponse>)
    ensures
        r matches Some(c) ==> reads_chunk(value_model(*v), c),
        r is None ==> (forall|c: StreamingChatCompletionResponse|
            !reads_chunk(value_model(*v), c)),
{
    let id = match value_get_string(v, "id") {
        Some(s) => s,
        None => {
            return None;
        },
    };
    let object = match value_get_string(v, "object") {
        Some(s) => s,
        None => {
            return None;
        },
    };
    let created = match get_u64(v, "created") {
        Some(n) => n,
        None => {
            return None;
        },
    };
    let model = match value_get_string(v, "model") {
        Some(s) => s,
        None => {
            return None;
        },
    };
    let choices_field = match json_get(v, "choices") {
        Some(c) => c,
        None => {
            return None;
        },
    };
    let choice_items = match json_as_array(choices_field) {
        Some(items) => items,
        None => {
            return None;
        },
    };
    let mut choices: Vec<StreamChoice> = Vec::new();
    let mut i: usize = 0;
    while i < choice_items.len()
        invariant
            i <= choice_items@.len(),
            choices@.len() == i,
            forall|j: int|
                0 <= j < i ==> reads_stream_choice(
                    value_model(#[trigger] choice_items@[j]),
                    choices@[j],
                ),
        decreases choice_items@.len() - i,
    {
        match value_to_stream_choice(&choice_items[i]) {
            Some(c) => choices.push(c),
            None => {
                return None;
            },
        }
        i = i + 1;
    }
    proof {
        let fm = value_model(*choices_field);
        assert forall|j: int| 0 <= j < choices@.len() implies reads_stream_choice(
            fm->Arr_0@[j],
            choices@[j],
        ) by {
            assert(value_model(choice_items@[j]) == fm->Arr_0@[j]);
        }
    }
    Some(StreamingChatCompletionResponse { id, object, created, model, choices })
}

/// Reads a 2xx body as a complete completion: `Ok` of the one response
/// the parsed document reads as, exactly when the body parses and has
/// that shape; every failure is a parsing error, never a panic or a
/// silent default.
pub fn decode_response_bytes(bytes: &[u8]) -> (r: Result<ChatCompletionResponse, GlmError>)
    ensures
        r matches Err(e) ==> e matches GlmError::ParsingError { .. },
        !json_parses(bytes@) ==> r is Err,
        json_parses(bytes@) ==> (match r {
            Ok(resp) => reads_response(json_doc(bytes@), resp),
            Err(_) => forall|resp: ChatCompletionResponse|
                !reads_response(json_doc(bytes@), resp),
        }),
{
    let doc = match parse_json(bytes) {
        Some(d) => d,
        None => {
            return Err(
                GlmError::ParsingError { message: "response body is not valid JSON".to_owned() },
            );
        },
    };
    match value_to_response(&doc) {
        Some(resp) => Ok(resp),
        None => Err(
            GlmError::ParsingError {
                message: "response body does not have the completion shape".to_owned(),
            },
        ),
    }
}

/// Reads one streaming payload as a chunk: `Ok` of the one chunk the
/// parsed document reads as, exactly when the payload parses and has
/// that shape; a malformed payload is a streaming failure, which the
/// caller passes along in-band.
pub fn decode_chunk_bytes(bytes: &[u8]) -> (r: Result<StreamingChatCompletionResponse, GlmError>)
    ensures
        r matches Err(e) ==> e matches GlmError::StreamingError { .. },
        !json_parses(bytes@) ==> r is Err,
        json_parses(bytes@) ==> (match r {
            Ok(c) => reads_chunk(json_doc(bytes@), c),
            Err(_) => forall|c: StreamingChatCompletionResponse|
                !reads_chunk(json_doc(bytes@), c),
        }),
{
    let doc = match parse_json(bytes) {
        Some(d) => d,
        None => {
            return Err(
                GlmError::StreamingError { message: "stream payload is not valid JSON".to_owned() },
            );
        },
    };
    match value_to_chunk(&doc) {
        Some(chunk) => Ok(chunk),
        None => Err(
            GlmError::StreamingError {
                message: "stream payload does not have the chunk shape".to_owned(),
            },
        ),
    }
}

/// Tries to read a failed exchange's body as the structured error
/// envelope `{"error": {"message", "type", "code", "param"}}`: `Some`
/// of the one reading exactly when the body parses and holds the
/// envelope.
pub fn decode_error_envelope(bytes: &[u8]) -> (r: Option<ApiErrorDetails>)
    ensures
        !json_parses(bytes@) ==> r is None,
        json_parses(bytes@) ==> (match r {
            Some(d) => reads_envelope(json_doc(bytes@), d),
            None => forall|d: ApiErrorDetails| !reads_envelope(json_doc(bytes@), d),
        }),
{
    let doc = match parse_json(bytes) {
        Some(d) => d,
        None => {
            return None;
        },
    };
    let error = match json_get(&doc, "error") {
        Some(e) => e,
        None => {
            return None;
        },
    };
    let message = match value_get_string(error, "message") {
        Some(s) => s,
        None => {
            return None;
        },
    };
    let error_type = match get_opt_string(error, "type") {
        Ok(t) => t,
        Err(()) => {
            return None;
        },
    };
    let code = match get_opt_string(error, "code") {
        Ok(c) => c,
        Err(()) => {
            return None;
        },
    };
    let param = match get_opt_string(error, "param") {
        Ok(p) => p,
        Err(()) => {
            return None;
        },
    };
    Some(ApiErrorDetails { message, error_type, code, param })
}

} // verus!
