use vstd::prelude::*;

verus! {

/// Errors raised by the Malee shopping agent.
#[derive(Debug, Clone, PartialEq, Eq)]
pub enum MaleeError {
    /// The cart would exceed its item limit (the limit is carried).
    CartFull(usize),
    /// An order was created too recently; retry after `seconds`.
    OrderCooldown { seconds: u64 },
    /// Input failed validation.
    Validation(String),
    /// The language model or its tooling failed.
    LlmError(String),
    /// The commerce connector failed.
    ConnectorError(String),
    /// The language-model provider rate-limited the request.
    LlmRateLimited { provider: String, retry_after_ms: Option<u64> },
    /// No stream chunk arrived within the given number of seconds.
    LlmStreamTimeout { seconds: u64 },
    /// The model produced output that could not be parsed.
    LlmMalformedOutput(String),
    /// The client went away while events were being sent.
    ClientDisconnected,
    /// The agent loop ran out of turns.
    LoopDepthExceeded,
    /// The session does not exist.
    SessionNotFound,
}

/// Errors raised by the HTTP-facing services.
#[derive(Debug, Clone, PartialEq, Eq)]
pub enum AppError {
    /// The request is invalid.
    Validation(String),
    /// An upstream service failed.
    UpstreamError(String),
    /// The requested item does not exist.
    NotFound(String),
}

} // verus!
