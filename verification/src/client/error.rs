//! The closed set of client failure kinds, classification from HTTP
//! signals, and the retry advisory.

use vstd::prelude::*;
use vstd::string::StringExecFns;

verus! {

/// Every failure the client can report. No other error shape crosses the
/// client boundary.
#[derive(Debug, Clone)]
pub enum GlmError {
    /// Catch-all for HTTP status codes outside the recognized bands.
    ApiError { status: u16, message: String },
    /// HTTP 401, or an error envelope of type `authentication_error`.
    AuthenticationError,
    /// HTTP 429, or an error envelope of type `rate_limit_error`.
    RateLimitError { message: String },
    /// HTTP 400-499 other than 401 and 429, or an envelope of type
    /// `invalid_request_error`.
    InvalidRequest { message: String },
    /// HTTP 500-599, or an envelope of type `server_error`.
    ServerError { message: String },
    /// A malformed payload inside a server-sent-event stream.
    StreamingError { message: String },
    /// The transport gave up waiting for the service.
    TimeoutError,
    /// Bad client construction: an empty API key or an unusable base URL.
    ConfigError { message: String },
    /// A malformed JSON body in a non-streaming response.
    ParsingError { message: String },
    /// A connect or DNS failure before any response arrived.
    NetworkError { message: String },
    /// A structured error envelope whose type string is not recognized.
    Unknown { message: String },
}

/// The structured error envelope `{"error": {...}}` that the service sends
/// with non-2xx responses.
#[derive(Debug, Clone)]
pub struct ApiErrorResponse {
    pub error: ApiErrorDetails,
}

#[derive(Debug, Clone)]
pub struct ApiErrorDetails {
    pub message: String,
    pub error_type: Option<String>,
    pub code: Option<String>,
    pub param: Option<String>,
}

impl GlmError {
    /// Classification of a failure from the HTTP status band alone.
    pub open spec fn spec_from_api_response(status: u16, message: String) -> GlmError {
        if status == 401 {
            GlmError::AuthenticationError
        } else if status == 429 {
            GlmError::RateLimitError { message }
        } else if 400 <= status && status <= 499 {
            GlmError::InvalidRequest { message }
        } else if 500 <= status && status <= 599 {
            GlmError::ServerError { message }
        } else {
            GlmError::ApiError { status, message }
        }
    }

    /// Classifies a failed HTTP exchange from its status code when no
    /// structured error envelope could be read from the body.
    pub fn from_api_response(status: u16, message: String) -> (r: Self)
        ensures
            r == Self::spec_from_api_response(status, message),
    {
        if status == 401 {
            Self::AuthenticationError
        } else if status == 429 {
            Self::RateLimitError { message }
        } else if 400 <= status && status <= 499 {
            Self::InvalidRequest { message }
        } else if 500 <= status && status <= 599 {
            Self::ServerError { message }
        } else {
            Self::ApiError { status, message }
        }
    }

    /// A failure is worth retrying exactly when it came from the network,
    /// a timeout, rate limiting, or the server side.
    pub open spec fn spec_is_retryable(&self) -> bool {
        match self {
            GlmError::RateLimitError { .. } => true,
            GlmError::ServerError { .. } => true,
            GlmError::TimeoutError => true,
            GlmError::NetworkError { .. } => true,
            _ => false,
        }
    }

    pub fn is_retryable(&self) -> (r: bool)
        ensures
            r == self.spec_is_retryable(),
    {
        match self {
            Self::RateLimitError { .. } => true,
            Self::ServerError { .. } => true,
            Self::TimeoutError => true,
            Self::NetworkError { .. } => true,
            _ => false,
        }
    }

    /// The advisory wait, in seconds, before a retry; `None` for kinds that
    /// are not retryable. The client itself never loops on this.
    pub open spec fn spec_retry_delay(&self) -> Option<u64> {
        match self {
            GlmError::RateLimitError { .. } => Some(60u64),
            GlmError::ServerError { .. } => Some(5u64),
            GlmError::TimeoutError => Some(10u64),
            GlmError::NetworkError { .. } => Some(5u64),
            _ => None,
        }
    }

    pub fn retry_delay(&self) -> (r: Option<u64>)
        ensures
            r == self.spec_retry_delay(),
    {
        match self {
            Self::RateLimitError { .. } => Some(60u64),
            Self::ServerError { .. } => Some(5u64),
            Self::TimeoutError => Some(10u64),
            Self::NetworkError { .. } => Some(5u64),
            _ => None,
        }
    }

    /// Only a retryable kind carries an advisory delay, and every retryable
    /// kind carries one.
    pub proof fn lemma_retry_delay_iff_retryable(&self)
        ensures
            self.spec_retry_delay() is Some <==> self.spec_is_retryable(),
    {
    }

    /// Every status in the 500-599 band classifies as a retryable server
    /// error, whatever the message.
    pub proof fn lemma_server_band_retryable(status: u16, message: String)
        requires
            500 <= status <= 599,
        ensures
            Self::spec_from_api_response(status, message) matches GlmError::ServerError { message: m }
                && m == message,
            Self::spec_from_api_response(status, message).spec_is_retryable(),
            Self::spec_from_api_response(status, message).spec_retry_delay() == Some(5u64),
    {
    }

    /// Every status in the 400-499 band other than 401 and 429 classifies
    /// as an invalid request, which is not retryable.
    pub proof fn lemma_client_band_not_retryable(status: u16, message: String)
        requires
            400 <= status <= 499,
            status != 401,
            status != 429,
        ensures
            Self::spec_from_api_response(status, message) matches GlmError::InvalidRequest { message: m }
                && m == message,
            !Self::spec_from_api_response(status, message).spec_is_retryable(),
            Self::spec_from_api_response(status, message).spec_retry_delay() is None,
    {
    }

    /// 401 means a non-retryable authentication failure; 429 means rate
    /// limiting, retryable after an advisory 60 seconds.
    pub proof fn lemma_auth_and_rate_limit(message: String)
        ensures
            Self::spec_from_api_response(401, message) == GlmError::AuthenticationError,
            !Self::spec_from_api_response(401, message).spec_is_retryable(),
            Self::spec_from_api_response(429, message) matches GlmError::RateLimitError { message: m }
                && m == message,
            Self::spec_from_api_response(429, message).spec_is_retryable(),
            Self::spec_from_api_response(429, message).spec_retry_delay() == Some(60u64),
    {
    }

    /// Classification of a transport failure, from what the HTTP layer
    /// reports of it: a timed-out exchange, a connect or DNS failure,
    /// or any other transport fault that never yielded a response.
    pub open spec fn spec_from_transport(timed_out: bool, message: String) -> GlmError {
        if timed_out {
            GlmError::TimeoutError
        } else {
            GlmError::NetworkError { message }
        }
    }

    /// Resolves a transport failure onto the closed set before it can
    /// cross the client boundary.
    pub fn from_transport(timed_out: bool, message: String) -> (r: Self)
        ensures
            r == Self::spec_from_transport(timed_out, message),
    {
        if timed_out {
            Self::TimeoutError
        } else {
            Self::NetworkError { message }
        }
    }

    /// A short, discriminated rendering of the failure: its kind, then any
    /// message the kind carries.
    pub fn to_string(&self) -> (r: String)
        ensures
            r@ == self.spec_message(),
    {
        match self {
            Self::ApiError { status: _, message } => concat_msg("api error: ", message),
            Self::AuthenticationError => "authentication error: API key missing or invalid".to_owned(),
            Self::RateLimitError { message } => concat_msg("rate limit reached: ", message),
            Self::InvalidRequest { message } => concat_msg("invalid request: ", message),
            Self::ServerError { message } => concat_msg("server error: ", message),
            Self::StreamingError { message } => concat_msg("streaming error: ", message),
            Self::TimeoutError => "timeout error: the request took too long".to_owned(),
            Self::ConfigError { message } => concat_msg("configuration error: ", message),
            Self::ParsingError { message } => concat_msg("parsing error: ", message),
            Self::NetworkError { message } => concat_msg("network error: ", message),
            Self::Unknown { message } => concat_msg("unknown error: ", message),
        }
    }

    pub open spec fn spec_message(&self) -> Seq<char> {
        match self {
            GlmError::ApiError { status, message } => "api error: "@ + message@,
            GlmError::AuthenticationError => "authentication error: API key missing or invalid"@,
            GlmError::RateLimitError { message } => "rate limit reached: "@ + message@,
            GlmError::InvalidRequest { message } => "invalid request: "@ + message@,
            GlmError::ServerError { message } => "server error: "@ + message@,
            GlmError::StreamingError { message } => "streaming error: "@ + message@,
            GlmError::TimeoutError => "timeout error: the request took too long"@,
            GlmError::ConfigError { message } => "configuration error: "@ + message@,
            GlmError::ParsingError { message } => "parsing error: "@ + message@,
            GlmError::NetworkError { message } => "network error: "@ + message@,
            GlmError::Unknown { message } => "unknown error: "@ + message@,
        }
    }
}

/// A prefix literal followed by a carried message.
pub(crate) fn concat_msg(prefix: &str, message: &String) -> (r: String)
    ensures
        r@ == prefix@ + message@,
{
    let mut r = prefix.to_owned();
    r.append(message.as_str());
    r
}

/// Classification of a structured error envelope by its type string; an
/// unrecognized or absent type yields `Unknown`.
pub open spec fn spec_classify_envelope(e: ApiErrorResponse) -> GlmError {
    let message = e.error.message;
    if e.error.error_type matches Some(t) && t@ == "invalid_request_error"@ {
        GlmError::InvalidRequest { message }
    } else if e.error.error_type matches Some(t) && t@ == "authentication_error"@ {
        GlmError::AuthenticationError
    } else if e.error.error_type matches Some(t) && t@ == "rate_limit_error"@ {
        GlmError::RateLimitError { message }
    } else if e.error.error_type matches Some(t) && t@ == "server_error"@ {
        GlmError::ServerError { message }
    } else {
        GlmError::Unknown { message }
    }
}

/// How an envelope's reading pins the classified error, up to string
/// views: the type string selects the kind, and the kinds that carry a
/// message carry the envelope's.
pub open spec fn envelope_classifies(d: ApiErrorDetails, e: GlmError) -> bool {
    if d.error_type matches Some(t) && t@ == "invalid_request_error"@ {
        e matches GlmError::InvalidRequest { message } && message@ == d.message@
    } else if d.error_type matches Some(t) && t@ == "authentication_error"@ {
        e == GlmError::AuthenticationError
    } else if d.error_type matches Some(t) && t@ == "rate_limit_error"@ {
        e matches GlmError::RateLimitError { message } && message@ == d.message@
    } else if d.error_type matches Some(t) && t@ == "server_error"@ {
        e matches GlmError::ServerError { message } && message@ == d.message@
    } else {
        e matches GlmError::Unknown { message } && message@ == d.message@
    }
}

/// The classified value satisfies `envelope_classifies` for its own
/// envelope, and for any other envelope that reads the same way.
pub proof fn lemma_classify_envelope_classifies(d: ApiErrorDetails, e: GlmError)
    requires
        e == spec_classify_envelope(ApiErrorResponse { error: d }),
    ensures
        envelope_classifies(d, e),
{
}

impl From<ApiErrorResponse> for GlmError {
    /// Maps the envelope's type string onto the closed failure set.
    fn from(error_response: ApiErrorResponse) -> (r: Self) {
        let message = error_response.error.message;
        match &error_response.error.error_type {
            Some(t) => {
                if str_eq(t.as_str(), "invalid_request_error") {
                    Self::InvalidRequest { message }
                } else if str_eq(t.as_str(), "authentication_error") {
                    Self::AuthenticationError
                } else if str_eq(t.as_str(), "rate_limit_error") {
                    Self::RateLimitError { message }
                } else if str_eq(t.as_str(), "server_error") {
                    Self::ServerError { message }
                } else {
                    Self::Unknown { message }
                }
            },
            None => Self::Unknown { message },
        }
    }
}

impl vstd::std_specs::convert::FromSpecImpl<ApiErrorResponse> for GlmError {
    open spec fn obeys_from_spec() -> bool {
        true
    }

    open spec fn from_spec(e: ApiErrorResponse) -> GlmError {
        spec_classify_envelope(e)
    }
}

/// The result type every client operation uses.
pub type GlmResult<T> = Result<T, GlmError>;

/// String equality by view, via the specified `String` comparison.
pub fn str_eq(a: &str, b: &str) -> (r: bool)
    ensures
        r == (a@ == b@),
{
    let sa = a.to_owned();
    let sb = b.to_owned();
    sa == sb
}

} // verus!
