//! Composition of request bodies and bridge frames as JSON documents,
//! and the reading of a request document back into the typed model.
//!
//! `represents_request` pins down what a composed document holds of a
//! request. The encoder establishes it; the decoder inverts it; the
//! functionality law states that a document determines the request's
//! observable fields, which together give the round trip.

use vstd::prelude::*;
use crate::json::JsonValue;
use crate::client::types::{
    ChatCompletionRequest, Delta, Message, Role, StreamChoice,
    StreamingChatCompletionResponse, ThinkingConfig, ThinkingType, ToolCall, ToolChoice,
    ToolDefinition,
};

verus! {

broadcast use vstd::string::group_string_axioms;

// --- What a document holds of the typed model ---

pub open spec fn spec_role_str(r: Role) -> Seq<char> {
    match r {
        Role::System => "system"@,
        Role::User => "user"@,
        Role::Assistant => "assistant"@,
    }
}

pub open spec fn represents_tool_call(v: JsonValue, tc: ToolCall) -> bool {
    &&& (match v.spec_get("id"@) {
        Some(JsonValue::Str(s)) => s@ == tc.id@,
        _ => false,
    })
    &&& (match v.spec_get("type"@) {
        Some(JsonValue::Str(s)) => s@ == tc.call_type@,
        _ => false,
    })
    &&& (match v.spec_get("function"@) {
        Some(f) => {
            &&& (match f.spec_get("name"@) {
                Some(JsonValue::Str(s)) => s@ == tc.function.name@,
                _ => false,
            })
            &&& (match f.spec_get("arguments"@) {
                Some(JsonValue::Str(s)) => s@ == tc.function.arguments@,
                _ => false,
            })
        },
        None => false,
    })
}

pub open spec fn represents_message(v: JsonValue, m: Message) -> bool {
    &&& (match v.spec_get("role"@) {
        Some(JsonValue::Str(s)) => s@ == spec_role_str(m.role),
        _ => false,
    })
    &&& (match m.content {
        Some(c) => match v.spec_get("content"@) {
            Some(JsonValue::Str(s)) => s@ == c@,
            _ => false,
        },
        None => v.spec_get("content"@) is None,
    })
    &&& (match m.tool_calls {
        Some(tcs) => match v.spec_get("tool_calls"@) {
            Some(JsonValue::Arr(items)) => items@.len() == tcs@.len() && (forall|i: int|
                0 <= i < tcs@.len() ==> represents_tool_call(#[trigger] items@[i], tcs@[i])),
            _ => false,
        },
        None => v.spec_get("tool_calls"@) is None,
    })
    &&& (match m.tool_call_id {
        Some(id) => match v.spec_get("tool_call_id"@) {
            Some(JsonValue::Str(s)) => s@ == id@,
            _ => false,
        },
        None => v.spec_get("tool_call_id"@) is None,
    })
    &&& (match m.thinking {
        Some(t) => match v.spec_get("thinking"@) {
            Some(JsonValue::Str(s)) => s@ == t@,
            _ => false,
        },
        None => v.spec_get("thinking"@) is None,
    })
}

pub open spec fn represents_thinking(v: JsonValue, tc: ThinkingConfig) -> bool {
    match v.spec_get("type"@) {
        Some(JsonValue::Str(s)) => s@ == (match tc.thinking_type {
            ThinkingType::Enabled => "enabled"@,
            ThinkingType::Disabled => "disabled"@,
        }),
        _ => false,
    }
}

/// What a composed tool document holds of the offered tool: its type,
/// the function's name and description, and the parameter schema,
/// equal up to string views.
pub open spec fn represents_tool_def(v: JsonValue, td: ToolDefinition) -> bool {
    &&& (match v.spec_get("type"@) {
        Some(JsonValue::Str(s)) => s@ == td.tool_type@,
        _ => false,
    })
    &&& (match v.spec_get("function"@) {
        Some(f) => {
            &&& (match f.spec_get("name"@) {
                Some(JsonValue::Str(s)) => s@ == td.function.name@,
                _ => false,
            })
            &&& (match f.spec_get("description"@) {
                Some(JsonValue::Str(s)) => s@ == td.function.description@,
                _ => false,
            })
            &&& (match f.spec_get("parameters"@) {
                Some(p) => crate::json::jv_eq(p, td.function.parameters),
                None => false,
            })
        },
        None => false,
    })
}

/// What a composed tool-choice value holds: the wire string of the
/// untagged variants, or the function object of a specific choice.
pub open spec fn represents_tool_choice(v: JsonValue, tc: ToolChoice) -> bool {
    match tc {
        ToolChoice::NoTools(s) => v matches JsonValue::Str(w) && w@ == s@,
        ToolChoice::Auto(s) => v matches JsonValue::Str(w) && w@ == s@,
        ToolChoice::Required(s) => v matches JsonValue::Str(w) && w@ == s@,
        ToolChoice::Specific { tool_type, function } => {
            &&& (match v.spec_get("type"@) {
                Some(JsonValue::Str(s)) => s@ == tool_type@,
                _ => false,
            })
            &&& (match v.spec_get("function"@) {
                Some(f) => (match f.spec_get("name"@) {
                    Some(JsonValue::Str(s)) => s@ == function.name@,
                    _ => false,
                }),
                None => false,
            })
        },
    }
}

/// What a composed request document holds of the request: every field a
/// reader can recover; `request_to_json` additionally pins the offered
/// tools and the tool choice, which are sent but not read back.
pub open spec fn represents_request(v: JsonValue, q: ChatCompletionRequest) -> bool {
    &&& (match v.spec_get("model"@) {
        Some(JsonValue::Str(s)) => s@ == q.model@,
        _ => false,
    })
    &&& (match v.spec_get("messages"@) {
        Some(JsonValue::Arr(items)) => items@.len() == q.messages@.len() && (forall|i: int|
            0 <= i < q.messages@.len() ==> represents_message(
                #[trigger] items@[i],
                q.messages@[i],
            )),
        _ => false,
    })
    &&& (match q.thinking {
        Some(tc) => match v.spec_get("thinking"@) {
            Some(t) => represents_thinking(t, tc),
            None => false,
        },
        None => v.spec_get("thinking"@) is None,
    })
    &&& (match q.stream {
        Some(b) => v.spec_get("stream"@) == Some(JsonValue::Bool(b)),
        None => v.spec_get("stream"@) is None,
    })
    &&& (match q.max_tokens {
        Some(n) => v.spec_get("max_tokens"@) == Some(JsonValue::UInt(n as u64)),
        None => v.spec_get("max_tokens"@) is None,
    })
    &&& (match q.temperature {
        Some(t) => v.spec_get("temperature"@) == Some(JsonValue::Milli(t as u64)),
        None => v.spec_get("temperature"@) is None,
    })
    &&& (match q.top_p {
        Some(t) => v.spec_get("top_p"@) == Some(JsonValue::Milli(t as u64)),
        None => v.spec_get("top_p"@) is None,
    })
    &&& (match q.user {
        Some(u) => match v.spec_get("user"@) {
            Some(JsonValue::Str(s)) => s@ == u@,
            _ => false,
        },
        None => v.spec_get("user"@) is None,
    })
}

// --- Building objects field by field ---

proof fn lemma_get_in_push(
    fields: Seq<(String, JsonValue)>,
    k: String,
    v: JsonValue,
    key: Seq<char>,
)
    ensures
        JsonValue::spec_get_in(fields.push((k, v)), key) == (match JsonValue::spec_get_in(
            fields,
            key,
        ) {
            Some(w) => Some(w),
            None => if k@ == key {
                Some(v)
            } else {
                None
            },
        }),
    decreases fields.len(),
{
    if fields.len() == 0 {
        assert(fields.push((k, v))[0] == (k, v));
        assert(fields.push((k, v))[0].0 == k);
        assert(fields.push((k, v))[0].1 == v);
        assert(fields.push((k, v)).drop_first() =~= Seq::<(String, JsonValue)>::empty());
        assert(JsonValue::spec_get_in(Seq::<(String, JsonValue)>::empty(), key) is None);
    } else {
        assert(fields.push((k, v))[0] == fields[0]);
        assert(fields.push((k, v)).drop_first() =~= fields.drop_first().push((k, v)));
        lemma_get_in_push(fields.drop_first(), k, v, key);
    }
}

/// Appends one binding; lookups of other keys are unchanged, and the new
/// key resolves to the new value unless it was already bound.
pub(crate) fn push_field(fields: &mut Vec<(String, JsonValue)>, key: &str, v: JsonValue)
    ensures
        forall|q: Seq<char>|
            #[trigger] JsonValue::spec_get_in(final(fields)@, q) == (match JsonValue::spec_get_in(
                old(fields)@,
                q,
            ) {
                Some(w) => Some(w),
                None => if key@ == q {
                    Some(v)
                } else {
                    None
                },
            }),
{
    let ghost v0 = v;
    let owned = key.to_owned();
    let ghost k = owned;
    fields.push((owned, v));
    proof {
        assert forall|q: Seq<char>| #[trigger] JsonValue::spec_get_in(fields@, q) == (match JsonValue::spec_get_in(
            old(fields)@,
            q,
        ) {
            Some(w) => Some(w),
            None => if key@ == q {
                Some(v0)
            } else {
                None
            },
        }) by {
            lemma_get_in_push(old(fields)@, k, v0, q);
        }
    }
}

// --- Encoding ---

fn role_string(r: Role) -> (s: String)
    ensures
        s@ == spec_role_str(r),
{
    match r {
        Role::System => "system".to_owned(),
        Role::User => "user".to_owned(),
        Role::Assistant => "assistant".to_owned(),
    }
}

fn tool_call_to_json(tc: &ToolCall) -> (r: JsonValue)
    ensures
        represents_tool_call(r, *tc),
{
    let mut inner: Vec<(String, JsonValue)> = Vec::new();
    push_field(&mut inner, "name", JsonValue::Str(tc.function.name.clone()));
    push_field(&mut inner, "arguments", JsonValue::Str(tc.function.arguments.clone()));
    let mut fields: Vec<(String, JsonValue)> = Vec::new();
    push_field(&mut fields, "id", JsonValue::Str(tc.id.clone()));
    push_field(&mut fields, "type", JsonValue::Str(tc.call_type.clone()));
    push_field(&mut fields, "function", JsonValue::Obj(inner));
    let r = JsonValue::Obj(fields);
    proof {
        reveal_strlit("id");
        assert("id"@ =~= seq!['i', 'd']);
        reveal_strlit("type");
        assert("type"@ =~= seq!['t', 'y', 'p', 'e']);
        reveal_strlit("function");
        assert("function"@ =~= seq!['f', 'u', 'n', 'c', 't', 'i', 'o', 'n']);
        reveal_strlit("name");
        assert("name"@ =~= seq!['n', 'a', 'm', 'e']);
        reveal_strlit("arguments");
        assert("arguments"@ =~= seq!['a', 'r', 'g', 'u', 'm', 'e', 'n', 't', 's']);
        assert(represents_tool_call(r, *tc));
    }
    r
}

/// Composes one message as the service expects it: the role always, the
/// optional fields only when present.
pub fn message_to_json(m: &Message) -> (r: JsonValue)
    ensures
        represents_message(r, *m),
{
    let mut fields: Vec<(String, JsonValue)> = Vec::new();
    push_field(&mut fields, "role", JsonValue::Str(role_string(m.role)));
    if let Some(c) = &m.content {
        push_field(&mut fields, "content", JsonValue::Str(c.clone()));
    }
    if let Some(tcs) = &m.tool_calls {
        let mut items: Vec<JsonValue> = Vec::new();
        let mut i: usize = 0;
        while i < tcs.len()
            invariant
                i <= tcs@.len(),
                items@.len() == i,
                forall|j: int|
                    0 <= j < i ==> represents_tool_call(#[trigger] items@[j], tcs@[j]),
            decreases tcs@.len() - i,
        {
            items.push(tool_call_to_json(&tcs[i]));
            i = i + 1;
        }
        push_field(&mut fields, "tool_calls", JsonValue::Arr(items));
    }
    if let Some(id) = &m.tool_call_id {
        push_field(&mut fields, "tool_call_id", JsonValue::Str(id.clone()));
    }
    if let Some(t) = &m.thinking {
        push_field(&mut fields, "thinking", JsonValue::Str(t.clone()));
    }
    let r = JsonValue::Obj(fields);
    proof {
        reveal_strlit("role");
        assert("role"@ =~= seq!['r', 'o', 'l', 'e']);
        reveal_strlit("content");
        assert("content"@ =~= seq!['c', 'o', 'n', 't', 'e', 'n', 't']);
        reveal_strlit("tool_calls");
        assert("tool_calls"@ =~= seq!['t', 'o', 'o', 'l', '_', 'c', 'a', 'l', 'l', 's']);
        reveal_strlit("tool_call_id");
        assert("tool_call_id"@ =~= seq!['t', 'o', 'o', 'l', '_', 'c', 'a', 'l', 'l', '_', 'i', 'd']);
        reveal_strlit("thinking");
        assert("thinking"@ =~= seq!['t', 'h', 'i', 'n', 'k', 'i', 'n', 'g']);
        assert(represents_message(r, *m));
    }
    r
}

fn thinking_to_json(tc: &ThinkingConfig) -> (r: JsonValue)
    ensures
        represents_thinking(r, *tc),
{
    let mut fields: Vec<(String, JsonValue)> = Vec::new();
    let label = match tc.thinking_type {
        ThinkingType::Enabled => "enabled".to_owned(),
        ThinkingType::Disabled => "disabled".to_owned(),
    };
    push_field(&mut fields, "type", JsonValue::Str(label));
    let r = JsonValue::Obj(fields);
    proof {
        reveal_strlit("type");
        assert("type"@ =~= seq!['t', 'y', 'p', 'e']);
        assert(represents_thinking(r, *tc));
    }
    r
}

fn tool_definition_to_json(td: &ToolDefinition) -> (r: JsonValue)
    ensures
        represents_tool_def(r, *td),
{
    let mut inner: Vec<(String, JsonValue)> = Vec::new();
    push_field(&mut inner, "name", JsonValue::Str(td.function.name.clone()));
    push_field(&mut inner, "description", JsonValue::Str(td.function.description.clone()));
    push_field(&mut inner, "parameters", td.function.parameters.clone());
    let mut fields: Vec<(String, JsonValue)> = Vec::new();
    push_field(&mut fields, "type", JsonValue::Str(td.tool_type.clone()));
    push_field(&mut fields, "function", JsonValue::Obj(inner));
    let r = JsonValue::Obj(fields);
    proof {
        reveal_strlit("type");
        assert("type"@ =~= seq!['t', 'y', 'p', 'e']);
        reveal_strlit("function");
        assert("function"@ =~= seq!['f', 'u', 'n', 'c', 't', 'i', 'o', 'n']);
        reveal_strlit("name");
        assert("name"@ =~= seq!['n', 'a', 'm', 'e']);
        reveal_strlit("description");
        assert("description"@ =~= seq!['d', 'e', 's', 'c', 'r', 'i', 'p', 't', 'i', 'o', 'n']);
        reveal_strlit("parameters");
        assert("parameters"@ =~= seq!['p', 'a', 'r', 'a', 'm', 'e', 't', 'e', 'r', 's']);
        assert(represents_tool_def(r, *td));
    }
    r
}

fn tool_choice_to_json(tc: &ToolChoice) -> (r: JsonValue)
    ensures
        represents_tool_choice(r, *tc),
{
    match tc {
        ToolChoice::NoTools(s) => JsonValue::Str(s.clone()),
        ToolChoice::Auto(s) => JsonValue::Str(s.clone()),
        ToolChoice::Required(s) => JsonValue::Str(s.clone()),
        ToolChoice::Specific { tool_type, function } => {
            let mut inner: Vec<(String, JsonValue)> = Vec::new();
            push_field(&mut inner, "name", JsonValue::Str(function.name.clone()));
            let mut fields: Vec<(String, JsonValue)> = Vec::new();
            push_field(&mut fields, "type", JsonValue::Str(tool_type.clone()));
            push_field(&mut fields, "function", JsonValue::Obj(inner));
            let r = JsonValue::Obj(fields);
            proof {
                reveal_strlit("type");
                assert("type"@ =~= seq!['t', 'y', 'p', 'e']);
                reveal_strlit("function");
                assert("function"@ =~= seq!['f', 'u', 'n', 'c', 't', 'i', 'o', 'n']);
                reveal_strlit("name");
                assert("name"@ =~= seq!['n', 'a', 'm', 'e']);
                assert(represents_tool_choice(r, *tc));
            }
            r
        },
    }
}

/// Composes the request body: a document that carries every observable
/// field of the request, with absent optional fields omitted, as the
/// wire format asks.
pub fn request_to_json(q: &ChatCompletionRequest) -> (r: JsonValue)
    ensures
        represents_request(r, *q),
        (match q.tools {
            Some(ts) => (match r.spec_get("tools"@) {
                Some(JsonValue::Arr(items)) => items@.len() == ts@.len() && (forall|i: int|
                    0 <= i < ts@.len() ==> represents_tool_def(#[trigger] items@[i], ts@[i])),
                _ => false,
            }),
            None => r.spec_get("tools"@) is None,
        }),
        (match q.tool_choice {
            Some(tc) => (match r.spec_get("tool_choice"@) {
                Some(w) => represents_tool_choice(w, tc),
                None => false,
            }),
            None => r.spec_get("tool_choice"@) is None,
        }),
{
    let mut fields: Vec<(String, JsonValue)> = Vec::new();
    push_field(&mut fields, "model", JsonValue::Str(q.model.clone()));
    let mut items: Vec<JsonValue> = Vec::new();
    let mut i: usize = 0;
    while i < q.messages.len()
        invariant
            i <= q.messages@.len(),
            items@.len() == i,
            forall|j: int|
                0 <= j < i ==> represents_message(#[trigger] items@[j], q.messages@[j]),
        decreases q.messages@.len() - i,
    {
        items.push(message_to_json(&q.messages[i]));
        i = i + 1;
    }
    push_field(&mut fields, "messages", JsonValue::Arr(items));
    if let Some(tc) = &q.thinking {
        push_field(&mut fields, "thinking", thinking_to_json(tc));
    }
    if let Some(tools) = &q.tools {
        let mut tool_items: Vec<JsonValue> = Vec::new();
        let mut t: usize = 0;
        while t < tools.len()
            invariant
                t <= tools@.len(),
                tool_items@.len() == t,
                forall|j: int|
                    0 <= j < t ==> represents_tool_def(#[trigger] tool_items@[j], tools@[j]),
            decreases tools@.len() - t,
        {
            tool_items.push(tool_definition_to_json(&tools[t]));
            t = t + 1;
        }
        push_field(&mut fields, "tools", JsonValue::Arr(tool_items));
    }
    if let Some(choice) = &q.tool_choice {
        push_field(&mut fields, "tool_choice", tool_choice_to_json(choice));
    }
    if let Some(b) = &q.stream {
        push_field(&mut fields, "stream", JsonValue::Bool(*b));
    }
    if let Some(n) = &q.max_tokens {
        push_field(&mut fields, "max_tokens", JsonValue::UInt(*n as u64));
    }
    if let Some(t) = &q.temperature {
        push_field(&mut fields, "temperature", JsonValue::Milli(*t as u64));
    }
    if let Some(t) = &q.top_p {
        push_field(&mut fields, "top_p", JsonValue::Milli(*t as u64));
    }
    if let Some(u) = &q.user {
        push_field(&mut fields, "user", JsonValue::Str(u.clone()));
    }
    let r = JsonValue::Obj(fields);
    proof {
        reveal_strlit("model");
        assert("model"@ =~= seq!['m', 'o', 'd', 'e', 'l']);
        reveal_strlit("messages");
        assert("messages"@ =~= seq!['m', 'e', 's', 's', 'a', 'g', 'e', 's']);
        reveal_strlit("thinking");
        assert("thinking"@ =~= seq!['t', 'h', 'i', 'n', 'k', 'i', 'n', 'g']);
        reveal_strlit("tools");
        assert("tools"@ =~= seq!['t', 'o', 'o', 'l', 's']);
        reveal_strlit("tool_choice");
        assert("tool_choice"@ =~= seq!['t', 'o', 'o', 'l', '_', 'c', 'h', 'o', 'i', 'c', 'e']);
        reveal_strlit("stream");
        assert("stream"@ =~= seq!['s', 't', 'r', 'e', 'a', 'm']);
        reveal_strlit("max_tokens");
        assert("max_tokens"@ =~= seq!['m', 'a', 'x', '_', 't', 'o', 'k', 'e', 'n', 's']);
        reveal_strlit("temperature");
        assert("temperature"@ =~= seq!['t', 'e', 'm', 'p', 'e', 'r', 'a', 't', 'u', 'r', 'e']);
        reveal_strlit("top_p");
        assert("top_p"@ =~= seq!['t', 'o', 'p', '_', 'p']);
        reveal_strlit("user");
        assert("user"@ =~= seq!['u', 's', 'e', 'r']);
        assert(represents_request(r, *q));
    }
    r
}

// --- Decoding ---

fn role_from_str(s: &str) -> (r: Option<Role>)
    ensures
        r matches Some(role) ==> s@ == spec_role_str(role),
        r is None ==> (forall|role: Role| s@ != spec_role_str(role)),
{
    if crate::client::error::str_eq(s, "system") {
        Some(Role::System)
    } else if crate::client::error::str_eq(s, "user") {
        Some(Role::User)
    } else if crate::client::error::str_eq(s, "assistant") {
        Some(Role::Assistant)
    } else {
        proof {
            assert forall|role: Role| s@ != spec_role_str(role) by {
                match role {
                    Role::System => {},
                    Role::User => {},
                    Role::Assistant => {},
                }
            }
        }
        None
    }
}

/// The string under `key`, distinguishing an absent binding from one of
/// another shape.
fn get_str_field(v: &JsonValue, key: &str) -> (r: Result<Option<String>, ()>)
    ensures
        r matches Ok(Some(s)) ==> (v.spec_get(key@) matches Some(JsonValue::Str(w)) && w@ == s@),
        r == Ok::<Option<String>, ()>(None) ==> v.spec_get(key@) is None,
        r is Err ==> (v.spec_get(key@) matches Some(w) && !(w is Str)),
{
    match v.get(key) {
        Some(JsonValue::Str(s)) => Ok(Some(s.clone())),
        Some(_) => Err(()),
        None => Ok(None),
    }
}

fn tool_call_from_json(v: &JsonValue) -> (r: Option<ToolCall>)
    ensures
        r matches Some(tc) ==> represents_tool_call(*v, tc),
        r is None ==> (forall|tc: ToolCall| !represents_tool_call(*v, tc)),
{
    let id = match get_str_field(v, "id") {
        Ok(Some(s)) => s,
        _ => {
            return None;
        },
    };
    let call_type = match get_str_field(v, "type") {
        Ok(Some(s)) => s,
        _ => {
            return None;
        },
    };
    let f = match v.get("function") {
        Some(f) => f,
        None => {
            return None;
        },
    };
    let name = match get_str_field(f, "name") {
        Ok(Some(s)) => s,
        _ => {
            return None;
        },
    };
    let arguments = match get_str_field(f, "arguments") {
        Ok(Some(s)) => s,
        _ => {
            return None;
        },
    };
    Some(ToolCall { id, call_type, function: crate::client::types::FunctionCall { name, arguments } })
}

/// Reads one message back from a document: the inverse of
/// `message_to_json` on everything `represents_message` covers.
#[verifier::loop_isolation(false)]
pub fn message_from_json(v: &JsonValue) -> (r: Option<Message>)
    ensures
        r matches Some(m) ==> represents_message(*v, m),
        r is None ==> (forall|m: Message| !represents_message(*v, m)),
{
    let role = match v.get("role") {
        Some(JsonValue::Str(s)) => {
            match role_from_str(s.as_str()) {
                Some(role) => role,
                None => {
                    return None;
                },
            }
        },
        _ => {
            return None;
        },
    };
    let content = match get_str_field(v, "content") {
        Ok(c) => c,
        Err(()) => {
            return None;
        },
    };
    let tool_calls = match v.get("tool_calls") {
        Some(JsonValue::Arr(items)) => {
            let mut out: Vec<ToolCall> = Vec::new();
            let mut i: usize = 0;
            while i < items.len()
                invariant
                    i <= items@.len(),
                    out@.len() == i,
                    forall|j: int|
                        0 <= j < i ==> represents_tool_call(items@[j], #[trigger] out@[j]),
                decreases items@.len() - i,
            {
                match tool_call_from_json(&items[i]) {
                    Some(tc) => out.push(tc),
                    None => {
                        return None;
                    },
                }
                i = i + 1;
            }
            Some(out)
        },
        Some(_) => {
            return None;
        },
        None => None,
    };
    let tool_call_id = match get_str_field(v, "tool_call_id") {
        Ok(t) => t,
        Err(()) => {
            return None;
        },
    };
    let thinking = match get_str_field(v, "thinking") {
        Ok(t) => t,
        Err(()) => {
            return None;
        },
    };
    Some(Message { role, content, tool_calls, tool_call_id, thinking })
}

fn thinking_from_json(v: &JsonValue) -> (r: Option<ThinkingConfig>)
    ensures
        r matches Some(tc) ==> represents_thinking(*v, tc),
        r is None ==> (forall|tc: ThinkingConfig| !represents_thinking(*v, tc)),
{
    match v.get("type") {
        Some(JsonValue::Str(s)) => {
            if crate::client::error::str_eq(s.as_str(), "enabled") {
                Some(ThinkingConfig { thinking_type: ThinkingType::Enabled })
            } else if crate::client::error::str_eq(s.as_str(), "disabled") {
                Some(ThinkingConfig { thinking_type: ThinkingType::Disabled })
            } else {
                proof {
                    assert forall|tc: ThinkingConfig| !represents_thinking(*v, tc) by {
                        match tc.thinking_type {
                            ThinkingType::Enabled => {},
                            ThinkingType::Disabled => {},
                        }
                    }
                }
                None
            }
        },
        _ => None,
    }
}

/// Reads a request document back into the typed model. Everything
/// `represents_request` covers is recovered exactly; offered tools and
/// the tool choice are not read back.
#[verifier::loop_isolation(false)]
pub fn request_from_json(v: &JsonValue) -> (r: Option<ChatCompletionRequest>)
    ensures
        r matches Some(q) ==> represents_request(*v, q) && q.tools is None && q.tool_choice
            is None,
        r is None ==> (forall|q: ChatCompletionRequest| !represents_request(*v, q)),
{
    let model = match get_str_field(v, "model") {
        Ok(Some(s)) => s,
        _ => {
            return None;
        },
    };
    let messages = match v.get("messages") {
        Some(JsonValue::Arr(items)) => {
            let mut out: Vec<Message> = Vec::new();
            let mut i: usize = 0;
            while i < items.len()
                invariant
                    i <= items@.len(),
                    out@.len() == i,
                    forall|j: int|
                        0 <= j < i ==> represents_message(items@[j], #[trigger] out@[j]),
                decreases items@.len() - i,
            {
                match message_from_json(&items[i]) {
                    Some(m) => out.push(m),
                    None => {
                        return None;
                    },
                }
                i = i + 1;
            }
            out
        },
        _ => {
            return None;
        },
    };
    let thinking = match v.get("thinking") {
        Some(t) => {
            match thinking_from_json(t) {
                Some(tc) => Some(tc),
                None => {
                    return None;
                },
            }
        },
        None => None,
    };
    let stream = match v.get("stream") {
        Some(JsonValue::Bool(b)) => Some(*b),
        Some(_) => {
            return None;
        },
        None => None,
    };
    let max_tokens = match v.get("max_tokens") {
        Some(JsonValue::UInt(n)) => {
            if *n <= 0xffff_ffff {
                Some(*n as u32)
            } else {
                return None;
            }
        },
        Some(_) => {
            return None;
        },
        None => None,
    };
    let temperature = match v.get("temperature") {
        Some(JsonValue::Milli(n)) => {
            if *n <= 0xffff_ffff {
                Some(*n as u32)
            } else {
                return None;
            }
        },
        Some(_) => {
            return None;
        },
        None => None,
    };
    let top_p = match v.get("top_p") {
        Some(JsonValue::Milli(n)) => {
            if *n <= 0xffff_ffff {
                Some(*n as u32)
            } else {
                return None;
            }
        },
        Some(_) => {
            return None;
        },
        None => None,
    };
    let user = match get_str_field(v, "user") {
        Ok(u) => u,
        Err(()) => {
            return None;
        },
    };
    Some(
        ChatCompletionRequest {
            model,
            messages,
            thinking,
            tools: None,
            tool_choice: None,
            stream,
            max_tokens,
            temperature,
            top_p,
            user,
        },
    )
}

// --- The round-trip law ---

/// Equality of two messages up to string views.
pub open spec fn msg_eq(a: Message, b: Message) -> bool {
    &&& a.role == b.role
    &&& (match (a.content, b.content) {
        (Some(x), Some(y)) => x@ == y@,
        (None, None) => true,
        _ => false,
    })
    &&& (match (a.tool_calls, b.tool_calls) {
        (Some(x), Some(y)) => x@.len() == y@.len() && (forall|i: int|
            0 <= i < x@.len() ==> tc_eq(#[trigger] x@[i], y@[i])),
        (None, None) => true,
        _ => false,
    })
    &&& (match (a.tool_call_id, b.tool_call_id) {
        (Some(x), Some(y)) => x@ == y@,
        (None, None) => true,
        _ => false,
    })
    &&& (match (a.thinking, b.thinking) {
        (Some(x), Some(y)) => x@ == y@,
        (None, None) => true,
        _ => false,
    })
}

pub open spec fn tc_eq(a: ToolCall, b: ToolCall) -> bool {
    &&& a.id@ == b.id@
    &&& a.call_type@ == b.call_type@
    &&& a.function.name@ == b.function.name@
    &&& a.function.arguments@ == b.function.arguments@
}

proof fn lemma_role_str_injective(a: Role, b: Role)
    requires
        spec_role_str(a) == spec_role_str(b),
    ensures
        a == b,
{
    reveal_strlit("system");
    assert("system"@ =~= seq!['s', 'y', 's', 't', 'e', 'm']);
    reveal_strlit("user");
    assert("user"@ =~= seq!['u', 's', 'e', 'r']);
    reveal_strlit("assistant");
    assert("assistant"@ =~= seq!['a', 's', 's', 'i', 's', 't', 'a', 'n', 't']);
    assert("system"@.len() == 6);
    assert("user"@.len() == 4);
    assert("assistant"@.len() == 9);
}

proof fn lemma_tool_call_functional(v: JsonValue, a: ToolCall, b: ToolCall)
    requires
        represents_tool_call(v, a),
        represents_tool_call(v, b),
    ensures
        tc_eq(a, b),
{
}

proof fn lemma_message_functional(v: JsonValue, a: Message, b: Message)
    requires
        represents_message(v, a),
        represents_message(v, b),
    ensures
        msg_eq(a, b),
{
    lemma_role_str_injective(a.role, b.role);
    match (a.tool_calls, b.tool_calls) {
        (Some(x), Some(y)) => {
            let items = v.spec_get("tool_calls"@)->Some_0->Arr_0;
            assert forall|i: int| 0 <= i < x@.len() implies tc_eq(#[trigger] x@[i], y@[i]) by {
                lemma_tool_call_functional(items@[i], x@[i], y@[i]);
            }
        },
        _ => {},
    }
}

/// The round-trip law: a composed request document determines the
/// request. Reading back what `request_to_json` wrote recovers the
/// model, the messages field for field, the stream flag, the sampling
/// parameters, the token bound, the thinking mode and the user tag.
pub proof fn lemma_request_round_trip(
    v: JsonValue,
    a: ChatCompletionRequest,
    b: ChatCompletionRequest,
)
    requires
        represents_request(v, a),
        represents_request(v, b),
    ensures
        a.model@ == b.model@,
        a.messages@.len() == b.messages@.len(),
        forall|i: int| 0 <= i < a.messages@.len() ==> msg_eq(#[trigger] a.messages@[i], b.messages@[i]),
        a.thinking == b.thinking,
        a.stream == b.stream,
        a.max_tokens == b.max_tokens,
        a.temperature == b.temperature,
        a.top_p == b.top_p,
        (match (a.user, b.user) {
            (Some(x), Some(y)) => x@ == y@,
            (None, None) => true,
            _ => false,
        }),
{
    let items = v.spec_get("messages"@)->Some_0->Arr_0;
    assert forall|i: int| 0 <= i < a.messages@.len() implies msg_eq(
        #[trigger] a.messages@[i],
        b.messages@[i],
    ) by {
        lemma_message_functional(items@[i], a.messages@[i], b.messages@[i]);
    }
    match (a.thinking, b.thinking) {
        (Some(x), Some(y)) => {
            reveal_strlit("enabled");
            assert("enabled"@ =~= seq!['e', 'n', 'a', 'b', 'l', 'e', 'd']);
            reveal_strlit("disabled");
            assert("disabled"@ =~= seq!['d', 'i', 's', 'a', 'b', 'l', 'e', 'd']);
            assert("enabled"@.len() == 7);
            assert("disabled"@.len() == 8);
            match (x.thinking_type, y.thinking_type) {
                (ThinkingType::Enabled, ThinkingType::Disabled) => {
                    assert(false);
                },
                (ThinkingType::Disabled, ThinkingType::Enabled) => {
                    assert(false);
                },
                _ => {},
            }
        },
        _ => {},
    }
}

// --- Chunk documents for the socket bridge ---

pub open spec fn represents_delta(v: JsonValue, d: Delta) -> bool {
    &&& (match d.content {
        Some(c) => match v.spec_get("content"@) {
            Some(JsonValue::Str(s)) => s@ == c@,
            _ => false,
        },
        None => v.spec_get("content"@) is None,
    })
    &&& (match d.role {
        Some(r) => match v.spec_get("role"@) {
            Some(JsonValue::Str(s)) => s@ == spec_role_str(r),
            _ => false,
        },
        None => v.spec_get("role"@) is None,
    })
}

pub open spec fn represents_stream_choice(v: JsonValue, c: StreamChoice) -> bool {
    &&& v.spec_get("index"@) == Some(JsonValue::UInt(c.index as u64))
    &&& (match v.spec_get("delta"@) {
        Some(d) => represents_delta(d, c.delta),
        None => false,
    })
    &&& (match c.finish_reason {
        Some(f) => match v.spec_get("finish_reason"@) {
            Some(JsonValue::Str(s)) => s@ == f@,
            _ => false,
        },
        None => v.spec_get("finish_reason"@) is None,
    })
}

pub open spec fn represents_chunk(v: JsonValue, c: StreamingChatCompletionResponse) -> bool {
    &&& (match v.spec_get("id"@) {
        Some(JsonValue::Str(s)) => s@ == c.id@,
        _ => false,
    })
    &&& (match v.spec_get("object"@) {
        Some(JsonValue::Str(s)) => s@ == c.object@,
        _ => false,
    })
    &&& v.spec_get("created"@) == Some(JsonValue::UInt(c.created))
    &&& (match v.spec_get("model"@) {
        Some(JsonValue::Str(s)) => s@ == c.model@,
        _ => false,
    })
    &&& (match v.spec_get("choices"@) {
        Some(JsonValue::Arr(items)) => items@.len() == c.choices@.len() && (forall|i: int|
            0 <= i < c.choices@.len() ==> represents_stream_choice(
                #[trigger] items@[i],
                c.choices@[i],
            )),
        _ => false,
    })
}

fn delta_to_json(d: &Delta) -> (r: JsonValue)
    ensures
        represents_delta(r, *d),
{
    let mut fields: Vec<(String, JsonValue)> = Vec::new();
    if let Some(c) = &d.content {
        push_field(&mut fields, "content", JsonValue::Str(c.clone()));
    }
    if let Some(r) = &d.role {
        push_field(&mut fields, "role", JsonValue::Str(role_string(*r)));
    }
    let r = JsonValue::Obj(fields);
    proof {
        reveal_strlit("content");
        assert("content"@ =~= seq!['c', 'o', 'n', 't', 'e', 'n', 't']);
        reveal_strlit("role");
        assert("role"@ =~= seq!['r', 'o', 'l', 'e']);
        assert(represents_delta(r, *d));
    }
    r
}

fn stream_choice_to_json(c: &StreamChoice) -> (r: JsonValue)
    ensures
        represents_stream_choice(r, *c),
{
    let mut fields: Vec<(String, JsonValue)> = Vec::new();
    push_field(&mut fields, "index", JsonValue::UInt(c.index as u64));
    push_field(&mut fields, "delta", delta_to_json(&c.delta));
    if let Some(f) = &c.finish_reason {
        push_field(&mut fields, "finish_reason", JsonValue::Str(f.clone()));
    }
    let r = JsonValue::Obj(fields);
    proof {
        reveal_strlit("index");
        assert("index"@ =~= seq!['i', 'n', 'd', 'e', 'x']);
        reveal_strlit("delta");
        assert("delta"@ =~= seq!['d', 'e', 'l', 't', 'a']);
        reveal_strlit("finish_reason");
        assert("finish_reason"@ =~= seq!['f', 'i', 'n', 'i', 's', 'h', '_', 'r', 'e', 'a', 's', 'o', 'n']);
        assert(represents_stream_choice(r, *c));
    }
    r
}

/// Composes one streaming chunk as a document, for re-emission over the
/// socket bridge.
pub fn chunk_to_json(c: &StreamingChatCompletionResponse) -> (r: JsonValue)
    ensures
        represents_chunk(r, *c),
{
    let mut fields: Vec<(String, JsonValue)> = Vec::new();
    push_field(&mut fields, "id", JsonValue::Str(c.id.clone()));
    push_field(&mut fields, "object", JsonValue::Str(c.object.clone()));
    push_field(&mut fields, "created", JsonValue::UInt(c.created));
    push_field(&mut fields, "model", JsonValue::Str(c.model.clone()));
    let mut items: Vec<JsonValue> = Vec::new();
    let mut i: usize = 0;
    while i < c.choices.len()
        invariant
            i <= c.choices@.len(),
            items@.len() == i,
            forall|j: int|
                0 <= j < i ==> represents_stream_choice(#[trigger] items@[j], c.choices@[j]),
        decreases c.choices@.len() - i,
    {
        items.push(stream_choice_to_json(&c.choices[i]));
        i = i + 1;
    }
    push_field(&mut fields, "choices", JsonValue::Arr(items));
    let r = JsonValue::Obj(fields);
    proof {
        reveal_strlit("id");
        assert("id"@ =~= seq!['i', 'd']);
        reveal_strlit("object");
        assert("object"@ =~= seq!['o', 'b', 'j', 'e', 'c', 't']);
        reveal_strlit("created");
        assert("created"@ =~= seq!['c', 'r', 'e', 'a', 't', 'e', 'd']);
        reveal_strlit("model");
        assert("model"@ =~= seq!['m', 'o', 'd', 'e', 'l']);
        reveal_strlit("choices");
        assert("choices"@ =~= seq!['c', 'h', 'o', 'i', 'c', 'e', 's']);
        assert(represents_chunk(r, *c));
    }
    r
}

} // verus!
