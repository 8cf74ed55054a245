use vstd::prelude::*;

verus! {

/// The error taxonomy a caller can observe from the dispatcher.
///
/// `AuthError` and the terminal classes propagate on first occurrence;
/// `RateLimitExceeded` and `RequestTimedOut` are absorbed locally up to the
/// retry budget and surface only on exhaustion. `UsageUnavailable` never
/// aborts a call: the caller substitutes a zero-valued usage record.
#[derive(Clone, Debug)]
pub enum ProviderError {
    /// The credential or token fetch failed; terminal, never retried.
    AuthError(String),
    /// The endpoint kept rate limiting past the retry budget.
    RateLimitExceeded(String),
    /// The request kept timing out past the retry budget.
    RequestTimedOut,
    /// Connection refused, DNS failure, malformed URL: terminal.
    TransportFailed(String),
    /// A non-retryable response (malformed request, unclassified status).
    UpstreamError(String),
    /// The response carried no readable usage record; non-fatal.
    UsageUnavailable(String),
}

} // verus!
