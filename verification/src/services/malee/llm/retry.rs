//! Classification of language-model failures into retry strategies.
use vstd::prelude::*;
use crate::error::MaleeError;
use crate::text::{chars_of, contains_chars, contains_seq};

verus! {

/// How a failed model call should be retried.
#[derive(Debug, Clone, Copy, PartialEq, Eq, Structural)]
pub enum ErrorClass {
    /// Rate limited by the provider: rotate backend and back off.
    RateLimited,
    /// Transient server error (5xx): rotate backend.
    TransientServer,
    /// Malformed model output (bad JSON in tool arguments): retry the same backend.
    MalformedOutput,
    /// Network failure or timeout: retry the same backend with back-off.
    NetworkError,
    /// Client or authentication error, or unknown: do not retry.
    Fatal,
}

/// The class of an error message, by the provider error patterns it contains.
pub open spec fn message_class(m: Seq<char>) -> ErrorClass {
    if contains_seq(m, "RATE_LIMIT"@) || contains_seq(m, "429"@) || contains_seq(
        m,
        "Too Many Requests"@,
    ) || contains_seq(m, "rate_limit_exceeded"@) {
        ErrorClass::RateLimited
    } else if contains_seq(m, "HTTP 5"@) || contains_seq(m, "502"@) || contains_seq(m, "503"@)
        || contains_seq(m, "504"@) || contains_seq(m, "tool_use_failed"@) {
        ErrorClass::TransientServer
    } else if contains_seq(m, "timeout"@) || contains_seq(m, "connection"@) || contains_seq(
        m,
        "Stream timeout"@,
    ) {
        ErrorClass::NetworkError
    } else {
        ErrorClass::Fatal
    }
}

/// The class of an error.
pub open spec fn error_class(e: MaleeError) -> ErrorClass {
    match e {
        MaleeError::LlmRateLimited { .. } => ErrorClass::RateLimited,
        MaleeError::LlmStreamTimeout { .. } => ErrorClass::NetworkError,
        MaleeError::LlmMalformedOutput(_) => ErrorClass::MalformedOutput,
        MaleeError::LlmError(m) => message_class(m@),
        MaleeError::ConnectorError(m) => message_class(m@),
        _ => ErrorClass::Fatal,
    }
}

fn mentions(m: &Vec<char>, p: &str) -> (r: bool)
    ensures
        r == contains_seq(m@, p@),
{
    let pc = chars_of(p);
    contains_chars(m, &pc)
}

impl ErrorClass {
    /// Classifies an error: the structured rate-limit, timeout and
    /// malformed-output variants directly, `LlmError` and `ConnectorError` by
    /// the patterns in their message, everything else as fatal.
    pub fn classify(err: &MaleeError) -> (r: Self)
        ensures
            r == error_class(*err),
    {
        match err {
            MaleeError::LlmRateLimited { .. } => ErrorClass::RateLimited,
            MaleeError::LlmStreamTimeout { .. } => ErrorClass::NetworkError,
            MaleeError::LlmMalformedOutput(_) => ErrorClass::MalformedOutput,
            MaleeError::LlmError(msg) => Self::classify_message(msg.as_str()),
            MaleeError::ConnectorError(msg) => Self::classify_message(msg.as_str()),
            _ => ErrorClass::Fatal,
        }
    }

    /// Classifies an error message by the provider error patterns it contains.
    fn classify_message(msg: &str) -> (r: Self)
        ensures
            r == message_class(msg@),
    {
        let m = chars_of(msg);
        if mentions(&m, "RATE_LIMIT") || mentions(&m, "429") || mentions(&m, "Too Many Requests")
            || mentions(&m, "rate_limit_exceeded") {
            return ErrorClass::RateLimited;
        }
        if mentions(&m, "HTTP 5") || mentions(&m, "502") || mentions(&m, "503") || mentions(
            &m,
            "504",
        ) || mentions(&m, "tool_use_failed") {
            return ErrorClass::TransientServer;
        }
        if mentions(&m, "timeout") || mentions(&m, "connection") || mentions(&m, "Stream timeout") {
            return ErrorClass::NetworkError;
        }
        ErrorClass::Fatal
    }

    /// Whether the class calls for a retry at all.
    pub open spec fn spec_is_retryable(self) -> bool {
        self != ErrorClass::Fatal
    }

    /// Whether the retry should move to another backend.
    pub open spec fn spec_should_rotate_backend(self) -> bool {
        self == ErrorClass::RateLimited || self == ErrorClass::TransientServer
    }

    /// Whether this error class should trigger a retry: every class but
    /// `Fatal` does (malformed output is retried on the same backend).
    pub fn is_retryable(self) -> (r: bool)
        ensures
            r == self.spec_is_retryable(),
    {
        match self {
            ErrorClass::Fatal => false,
            _ => true,
        }
    }

    /// Whether the retry should rotate to a different backend: rate limits and
    /// transient server errors do.
    pub fn should_rotate_backend(self) -> (r: bool)
        ensures
            r == self.spec_should_rotate_backend(),
    {
        match self {
            ErrorClass::RateLimited | ErrorClass::TransientServer => true,
            _ => false,
        }
    }
}

/// Rotating to another backend only ever happens as part of a retry; every
/// class but `Fatal` is retried, and malformed output is retried on the same
/// backend.
pub proof fn law_rotation_implies_retry(c: ErrorClass)
    ensures
        c.spec_should_rotate_backend() ==> c.spec_is_retryable(),
        c.spec_is_retryable() <==> c != ErrorClass::Fatal,
        c == ErrorClass::MalformedOutput ==> c.spec_is_retryable() && !c.spec_should_rotate_backend(),
{
}

/// A model or connector error whose message reports an HTTP 5xx status (and
/// no rate limit) is a transient server error: it is retried, on another
/// backend.
pub proof fn law_server_errors_rotate(e: MaleeError, m: Seq<char>)
    requires
        (e matches MaleeError::LlmError(s) && s@ == m) || (e matches MaleeError::ConnectorError(s)
            && s@ == m),
        contains_seq(m, "HTTP 5"@),
        !contains_seq(m, "RATE_LIMIT"@),
        !contains_seq(m, "429"@),
        !contains_seq(m, "Too Many Requests"@),
        !contains_seq(m, "rate_limit_exceeded"@),
    ensures
        error_class(e) == ErrorClass::TransientServer,
        error_class(e).spec_is_retryable(),
        error_class(e).spec_should_rotate_backend(),
{
}

/// The classes of error messages: a rate-limit report (`429`,
/// `RATE_LIMIT`, `Too Many Requests`, `rate_limit_exceeded`) is a rate limit;
/// otherwise a timeout or connection failure (with no server-error report) is
/// a network error, retried on the same backend; a message with none of the
/// known patterns (an HTTP 400 or 401 among them) is fatal and not retried.
pub proof fn law_message_classes(e: MaleeError, m: Seq<char>)
    requires
        (e matches MaleeError::LlmError(s) && s@ == m) || (e matches MaleeError::ConnectorError(s)
            && s@ == m),
    ensures
        contains_seq(m, "429"@) || contains_seq(m, "RATE_LIMIT"@) || contains_seq(
            m,
            "Too Many Requests"@,
        ) || contains_seq(m, "rate_limit_exceeded"@) ==> error_class(e) == ErrorClass::RateLimited,
        !contains_seq(m, "429"@) && !contains_seq(m, "RATE_LIMIT"@) && !contains_seq(
            m,
            "Too Many Requests"@,
        ) && !contains_seq(m, "rate_limit_exceeded"@) && !contains_seq(m, "HTTP 5"@)
            && !contains_seq(m, "502"@) && !contains_seq(m, "503"@) && !contains_seq(m, "504"@)
            && !contains_seq(m, "tool_use_failed"@) ==> (error_class(e) == ErrorClass::NetworkError
            <==> (contains_seq(m, "timeout"@) || contains_seq(m, "connection"@) || contains_seq(
            m,
            "Stream timeout"@,
        ))) && (error_class(e) == ErrorClass::NetworkError || error_class(e) == ErrorClass::Fatal),
        error_class(e) == ErrorClass::NetworkError ==> error_class(e).spec_is_retryable()
            && !error_class(e).spec_should_rotate_backend(),
        error_class(e) == ErrorClass::Fatal ==> !error_class(e).spec_is_retryable(),
{
}

} // verus!
