//! The client: construction-time validation, the endpoint address, and
//! the decoding of one HTTP exchange into the typed model.
//!
//! The network call itself is asynchronous and lives with the caller;
//! everything the call needs (the endpoint, the body, the transport
//! handle) and everything done with what it returns (status and body
//! text) is composed and decoded here.

use vstd::prelude::*;
use vstd::string::StringExecFns;
use vstd::string::StringSliceAdditionalSpecFns;
use vstd::string::StrSliceExecFns;
use crate::client::decode::{decode_error_envelope, decode_response_bytes, json_doc, json_parses, reads_envelope, reads_response};
use crate::client::error::{ApiErrorDetails, ApiErrorResponse, GlmError, GlmResult, envelope_classifies, lemma_classify_envelope_classifies, spec_classify_envelope};
use crate::json::JsonValue;
use crate::client::types::{
    ChatCompletionRequest, ChatCompletionResponse, GlmConfig, Message, ThinkingConfig,
    ThinkingType,
};

verus! {

#[verifier::external_type_specification]
#[verifier::external_body]
pub struct ExClient(reqwest::Client);

/// Relies on reqwest::Client::clone: the handle is reference-counted
/// and cloning shares the same transport.
pub assume_specification[ <reqwest::Client as Clone>::clone ](c: &reqwest::Client) -> reqwest::Client;

/// Whether the `url` crate accepts this text as an absolute URL. The
/// outcome depends on the text alone.
pub uninterp spec fn url_parses(s: Seq<char>) -> bool;

/// Relies on url::Url::parse: acceptance of a URL is a function of the
/// text alone.
#[verifier::external_body]
fn url_is_valid(s: &str) -> (r: bool)
    ensures
        r == url_parses(s@),
{
    url::Url::parse(s).is_ok()
}

/// Relies on reqwest::Client::builder, ClientBuilder::timeout and
/// ClientBuilder::build: an HTTP transport handle enforcing the given
/// request timeout, or the builder's error as text.
#[verifier::external_body]
fn build_http_client(timeout_secs: u64) -> (r: Result<reqwest::Client, String>) {
    reqwest::Client::builder()
        .timeout(core::time::Duration::from_secs(timeout_secs))
        .build()
        .map_err(|e| e.to_string())
}

/// A whitespace character, by code point: the set `str::trim` removes.
pub open spec fn is_space_char(c: char) -> bool {
    let u = c as u32;
    (9 <= u && u <= 13) || u == 32 || u == 0x85 || u == 0xA0 || u == 0x1680 || (0x2000 <= u && u
        <= 0x200A) || u == 0x2028 || u == 0x2029 || u == 0x202F || u == 0x205F || u == 0x3000
}

/// All-whitespace text, as an API key of spaces alone is no key.
pub open spec fn spec_blank(s: Seq<char>) -> bool {
    forall|i: int| 0 <= i < s.len() ==> is_space_char(#[trigger] s[i])
}

/// Whether the text is empty or whitespace alone, as `trim` sees it.
#[verifier::loop_isolation(false)]
pub fn is_blank(s: &str) -> (r: bool)
    ensures
        r == spec_blank(s@),
{
    let n = s.unicode_len();
    let mut i: usize = 0;
    while i < n
        invariant
            i <= n,
            forall|j: int| 0 <= j < i ==> is_space_char(#[trigger] s@[j]),
        decreases n - i,
    {
        let c = s.get_char(i);
        let u = c as u32;
        let ws = (9 <= u && u <= 13) || u == 32 || u == 0x85 || u == 0xA0 || u == 0x1680 || (
        0x2000 <= u && u <= 0x200A) || u == 0x2028 || u == 0x2029 || u == 0x202F || u == 0x205F
            || u == 0x3000;
        if !ws {
            return false;
        }
        i = i + 1;
    }
    true
}

/// The base URL with trailing slashes removed.
pub open spec fn spec_trim_slash(s: Seq<char>) -> Seq<char>
    decreases s.len(),
{
    if s.len() == 0 {
        s
    } else if s.last() == '/' {
        spec_trim_slash(s.drop_last())
    } else {
        s
    }
}

proof fn lemma_trim_slash_at(s: Seq<char>, l: int)
    requires
        0 <= l <= s.len(),
        forall|j: int| l <= j < s.len() ==> s[j] == '/',
        l == 0 || s[l - 1] != '/',
    ensures
        spec_trim_slash(s) =~= s.subrange(0, l),
    decreases s.len(),
{
    if s.len() == 0 {
    } else if s.last() == '/' {
        assert(l < s.len());
        lemma_trim_slash_at(s.drop_last(), l);
        assert(s.drop_last().subrange(0, l) =~= s.subrange(0, l));
    } else {
        assert(l == s.len());
        assert(s.subrange(0, l) =~= s);
    }
}

/// The endpoint one completion call posts to: the base URL without its
/// trailing slashes, then the completions path.
pub open spec fn spec_endpoint(base: Seq<char>) -> Seq<char> {
    spec_trim_slash(base) + "/chat/completions"@
}

#[verifier::loop_isolation(false)]
pub fn endpoint_url(base: &str) -> (r: String)
    ensures
        r@ == spec_endpoint(base@),
{
    let n = base.unicode_len();
    let mut l: usize = n;
    while l > 0 && base.get_char(l - 1) == '/'
        invariant
            l <= n,
            n == base@.len(),
            forall|j: int| l <= j < base@.len() ==> base@[j] == '/',
        decreases l,
    {
        l = l - 1;
    }
    proof {
        lemma_trim_slash_at(base@, l as int);
    }
    let trimmed = base.substring_char(0, l);
    let mut out = trimmed.to_owned();
    out.append("/chat/completions");
    out
}

/// How a failed exchange resolves onto the closed error set: a readable
/// structured envelope classifies by its type string; anything else
/// classifies by the HTTP status band, carrying the raw body as the
/// message.
pub fn classify_failure(status: u16, envelope: Option<ApiErrorDetails>, raw_body: String) -> (r:
    GlmError)
    ensures
        envelope matches Some(d) ==> r == spec_classify_envelope(
            ApiErrorResponse { error: d },
        ),
        envelope is None ==> r == GlmError::spec_from_api_response(status, raw_body),
{
    match envelope {
        Some(details) => GlmError::from(ApiErrorResponse { error: details }),
        None => GlmError::from_api_response(status, raw_body),
    }
}

/// A configuration failure carrying exactly this message text.
pub open spec fn config_error_with(r: GlmResult<GlmClient>, msg: Seq<char>) -> bool {
    match r {
        Err(GlmError::ConfigError { message }) => message@ == msg,
        _ => false,
    }
}

/// What an error value classified from a status band alone looks like,
/// stated over the message text.
pub open spec fn status_classifies(status: u16, msg: Seq<char>, e: GlmError) -> bool {
    if status == 401 {
        e == GlmError::AuthenticationError
    } else if status == 429 {
        e matches GlmError::RateLimitError { message } && message@ == msg
    } else if 400 <= status && status <= 499 {
        e matches GlmError::InvalidRequest { message } && message@ == msg
    } else if 500 <= status && status <= 599 {
        e matches GlmError::ServerError { message } && message@ == msg
    } else {
        e matches GlmError::ApiError { status: st, message } && st == status && message@ == msg
    }
}

/// Decodes one complete HTTP exchange. A 2xx body must be a completion:
/// the one response the parsed document reads as, or a parsing error. A
/// non-2xx exchange resolves through the structured envelope when the
/// body holds one, and through the status band when it does not.
pub fn decode_response(status: u16, body: &str) -> (r: GlmResult<ChatCompletionResponse>)
    ensures
        200 <= status < 300 ==> (r matches Err(e) ==> e matches GlmError::ParsingError { .. }),
        200 <= status < 300 && !json_parses(body.spec_bytes()) ==> r is Err,
        200 <= status < 300 && json_parses(body.spec_bytes()) ==> (match r {
            Ok(resp) => reads_response(json_doc(body.spec_bytes()), resp),
            Err(_) => forall|resp: ChatCompletionResponse|
                !reads_response(json_doc(body.spec_bytes()), resp),
        }),
        !(200 <= status < 300) ==> r is Err,
        !(200 <= status < 300) && !json_parses(body.spec_bytes()) ==> (r matches Err(e)
            && status_classifies(status, body@, e)),
        !(200 <= status < 300) && json_parses(body.spec_bytes()) && (forall|d: ApiErrorDetails|
            !reads_envelope(json_doc(body.spec_bytes()), d)) ==> (r matches Err(e)
            && status_classifies(status, body@, e)),
        !(200 <= status < 300) && json_parses(body.spec_bytes()) ==> (r matches Err(e) && (forall|
            d: ApiErrorDetails,
        |
            reads_envelope(json_doc(body.spec_bytes()), d) ==> envelope_classifies(d, e))),
{
    let bytes = body.as_bytes();
    if status >= 200 && status < 300 {
        decode_response_bytes(bytes)
    } else {
        let envelope = decode_error_envelope(bytes);
        let ghost envelope0 = envelope;
        let e = classify_failure(status, envelope, body.to_owned());
        proof {
            match envelope0 {
                Some(d0) => {
                    lemma_envelope_precedence(json_doc(body.spec_bytes()), d0, e);
                },
                None => {},
            }
        }
        Err(e)
    }
}

/// Any two readings of the same envelope agree up to string views, so
/// the classification of one satisfies `envelope_classifies` for every
/// reading: the envelope takes precedence deterministically.
proof fn lemma_envelope_precedence(doc: JsonValue, d0: ApiErrorDetails, e: GlmError)
    requires
        reads_envelope(doc, d0),
        e == spec_classify_envelope(ApiErrorResponse { error: d0 }),
    ensures
        forall|d: ApiErrorDetails| reads_envelope(doc, d) ==> envelope_classifies(d, e),
{
    lemma_classify_envelope_classifies(d0, e);
    assert forall|d: ApiErrorDetails| reads_envelope(doc, d) implies envelope_classifies(
        d,
        e,
    ) by {
        let ed = doc.spec_get("error"@)->Some_0;
        assert(d.message@ == d0.message@);
        match ed.spec_get("type"@) {
            Some(JsonValue::Str(u)) => {
                assert(d.error_type matches Some(t) && t@ == u@);
                assert(d0.error_type matches Some(t) && t@ == u@);
            },
            _ => {
                assert(d.error_type is None);
                assert(d0.error_type is None);
            },
        }
    }
}

/// The client handle: the transport and the immutable configuration,
/// shared by every call made through it.
#[derive(Debug, Clone)]
pub struct GlmClient {
    http: reqwest::Client,
    config: GlmConfig,
}

impl GlmClient {
    pub closed spec fn spec_config(&self) -> GlmConfig {
        self.config
    }

    /// Validates the configuration and builds the transport. A blank API
    /// key fails first, an unusable base URL second, each with its own
    /// configuration-error message and exactly on those inputs, before
    /// anything touches the network; a transport builder failure is the
    /// one remaining configuration error, carrying the builder's text
    /// behind a distinguishing prefix.
    pub fn new(config: GlmConfig) -> (r: GlmResult<GlmClient>)
        ensures
            spec_blank(config.api_key@) <==> config_error_with(
                r,
                "API key must not be empty"@,
            ),
            (!spec_blank(config.api_key@) && !url_parses(spec_endpoint(config.api_url@)))
                <==> config_error_with(r, "base URL cannot be parsed"@),
            r matches Err(e) ==> e matches GlmError::ConfigError { .. },
            r matches Ok(c) ==> {
                &&& c.spec_config() == config
                &&& !spec_blank(config.api_key@)
                &&& url_parses(spec_endpoint(config.api_url@))
            },
    {
        proof {
            reveal_strlit("API key must not be empty");
            reveal_strlit("base URL cannot be parsed");
            reveal_strlit("transport could not be built: ");
            assert("API key must not be empty"@ =~= seq![
                'A', 'P', 'I', ' ', 'k', 'e', 'y', ' ', 'm', 'u', 's', 't', ' ', 'n', 'o',
                't', ' ', 'b', 'e', ' ', 'e', 'm', 'p', 't', 'y',
            ]);
            assert("base URL cannot be parsed"@ =~= seq![
                'b', 'a', 's', 'e', ' ', 'U', 'R', 'L', ' ', 'c', 'a', 'n', 'n', 'o', 't',
                ' ', 'b', 'e', ' ', 'p', 'a', 'r', 's', 'e', 'd',
            ]);
            assert("transport could not be built: "@.len() == 30);
        }
        if is_blank(config.api_key.as_str()) {
            return Err(GlmError::ConfigError { message: "API key must not be empty".to_owned() });
        }
        let endpoint = endpoint_url(config.api_url.as_str());
        if !url_is_valid(endpoint.as_str()) {
            return Err(
                GlmError::ConfigError { message: "base URL cannot be parsed".to_owned() },
            );
        }
        match build_http_client(config.timeout_secs) {
            Ok(http) => Ok(GlmClient { http, config }),
            Err(message) => Err(
                GlmError::ConfigError {
                    message: crate::client::error::concat_msg(
                        "transport could not be built: ",
                        &message,
                    ),
                },
            ),
        }
    }

    /// The transport handle, for the caller that performs the exchange.
    pub fn http(&self) -> &reqwest::Client {
        &self.http
    }

    /// The configuration the client was built with.
    pub fn config(&self) -> (r: &GlmConfig)
        ensures
            *r == self.spec_config(),
    {
        &self.config
    }

    /// The endpoint this client posts completions to.
    pub fn endpoint(&self) -> (r: String)
        ensures
            r@ == spec_endpoint(self.spec_config().api_url@),
    {
        endpoint_url(self.config.api_url.as_str())
    }

    /// Composes one request from the configuration's defaults and the
    /// given conversation, exactly as every call sends it.
    pub fn build_request(&self, messages: Vec<Message>, stream: bool) -> (r:
        ChatCompletionRequest)
        ensures
            r.model@ == self.spec_config().model.spec_id(),
            r.messages == messages,
            r.stream == Some(stream),
            r.max_tokens == Some(self.spec_config().max_tokens),
            r.temperature == Some(self.spec_config().temperature),
            r.top_p == Some(self.spec_config().top_p),
            r.thinking == Some(
                ThinkingConfig {
                    thinking_type: if self.spec_config().thinking_enabled {
                        ThinkingType::Enabled
                    } else {
                        ThinkingType::Disabled
                    },
                },
            ),
            r.tools is None,
            r.tool_choice is None,
            r.user is None,
    {
        ChatCompletionRequest::new(self.config.model.to_string(), messages)
            .with_stream(stream)
            .with_max_tokens(self.config.max_tokens)
            .with_temperature(self.config.temperature)
            .with_top_p(self.config.top_p)
            .with_thinking(self.config.thinking_enabled)
    }
}

} // verus!
