//! The duplex-socket bridge's decisions and frames. The socket loop
//! itself performs I/O and lives with the caller; what each inbound text
//! means and what each outbound frame holds is decided here.
//!
//! Per inbound `{"message": text}` the bridge streams zero or more
//! `{"type": "stream_chunk", "data": chunk}` frames, then exactly one of
//! `{"type": "stream_complete"}` or `{"type": "error", "message": text}`;
//! malformed inbound JSON yields a single error frame and starts no
//! stream.

use vstd::prelude::*;
use vstd::string::StringSliceAdditionalSpecFns;
use crate::json::JsonValue;
use crate::client::codec::{chunk_to_json, push_field, represents_chunk};
use crate::client::decode::{json_doc, json_parses, parse_json, value_get_string};
use crate::client::types::StreamingChatCompletionResponse;

verus! {

/// Reads one inbound frame: the text under `"message"`, exactly when
/// the frame is a JSON object carrying one. Anything else — malformed
/// JSON included — yields nothing, and the caller answers with the
/// invalid-json error frame.
pub fn parse_inbound(text: &str) -> (r: Option<String>)
    ensures
        !json_parses(text.spec_bytes()) ==> r is None,
        json_parses(text.spec_bytes()) ==> (match r {
            Some(s) => (match json_doc(text.spec_bytes()).spec_get("message"@) {
                Some(JsonValue::Str(w)) => w@ == s@,
                _ => false,
            }),
            None => !(json_doc(text.spec_bytes()).spec_get("message"@) matches Some(
                JsonValue::Str(_),
            )),
        }),
{
    let doc = match parse_json(text.as_bytes()) {
        Some(d) => d,
        None => {
            return None;
        },
    };
    let r = value_get_string(&doc, "message");
    proof {
        match crate::client::decode::value_model(doc).spec_get("message"@) {
            Some(JsonValue::Str(w)) => {
                if r is None {
                    assert(crate::client::decode::reads_str(
                        crate::client::decode::value_model(doc),
                        "message"@,
                        w,
                    ));
                }
            },
            _ => {},
        }
    }
    r
}

/// The frame that carries one streamed chunk.
pub fn chunk_frame(c: &StreamingChatCompletionResponse) -> (r: JsonValue)
    ensures
        (match r.spec_get("type"@) {
            Some(JsonValue::Str(s)) => s@ == "stream_chunk"@,
            _ => false,
        }),
        (match r.spec_get("data"@) {
            Some(d) => represents_chunk(d, *c),
            None => false,
        }),
{
    let mut fields: Vec<(String, JsonValue)> = Vec::new();
    push_field(&mut fields, "type", JsonValue::Str("stream_chunk".to_owned()));
    push_field(&mut fields, "data", chunk_to_json(c));
    let r = JsonValue::Obj(fields);
    proof {
        reveal_strlit("type");
        reveal_strlit("data");
        assert("type"@ =~= seq!['t', 'y', 'p', 'e']);
        assert("data"@ =~= seq!['d', 'a', 't', 'a']);
    }
    r
}

/// The frame that ends a successful stream.
pub fn complete_frame() -> (r: JsonValue)
    ensures
        (match r.spec_get("type"@) {
            Some(JsonValue::Str(s)) => s@ == "stream_complete"@,
            _ => false,
        }),
{
    let mut fields: Vec<(String, JsonValue)> = Vec::new();
    push_field(&mut fields, "type", JsonValue::Str("stream_complete".to_owned()));
    let r = JsonValue::Obj(fields);
    proof {
        reveal_strlit("type");
        assert("type"@ =~= seq!['t', 'y', 'p', 'e']);
    }
    r
}

/// The frame that reports a failure, carrying its message.
pub fn error_frame(message: String) -> (r: JsonValue)
    ensures
        (match r.spec_get("type"@) {
            Some(JsonValue::Str(s)) => s@ == "error"@,
            _ => false,
        }),
        (match r.spec_get("message"@) {
            Some(JsonValue::Str(s)) => s@ == message@,
            _ => false,
        }),
{
    let mut fields: Vec<(String, JsonValue)> = Vec::new();
    push_field(&mut fields, "type", JsonValue::Str("error".to_owned()));
    push_field(&mut fields, "message", JsonValue::Str(message));
    let r = JsonValue::Obj(fields);
    proof {
        reveal_strlit("type");
        reveal_strlit("message");
        assert("type"@ =~= seq!['t', 'y', 'p', 'e']);
        assert("message"@ =~= seq!['m', 'e', 's', 's', 'a', 'g', 'e']);
    }
    r
}

/// The answer to a frame that is not valid JSON.
pub fn invalid_json_frame() -> (r: JsonValue)
    ensures
        (match r.spec_get("type"@) {
            Some(JsonValue::Str(s)) => s@ == "error"@,
            _ => false,
        }),
        (match r.spec_get("message"@) {
            Some(JsonValue::Str(s)) => s@ == "invalid json"@,
            _ => false,
        }),
{
    error_frame("invalid json".to_owned())
}

} // verus!
