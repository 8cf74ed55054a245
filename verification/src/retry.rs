use vstd::prelude::*;

use crate::errors::ProviderError;

verus! {

/// Default retry budget: how many failed sends may be retried.
pub const DEFAULT_MAX_RETRIES: u64 = 5;

/// Default first backoff delay, in milliseconds.
pub const DEFAULT_INITIAL_DELAY_MS: u64 = 1000;

/// Default growth factor of the exponential backoff.
pub const DEFAULT_BACKOFF_MULTIPLIER: u64 = 2;

/// Default ceiling a computed backoff delay may reach, in milliseconds.
pub const DEFAULT_DELAY_CAP_MS: u64 = 32000;

/// Classification of one failed attempt, derived from the raw
/// transport or HTTP outcome.
#[derive(Clone, Debug)]
pub enum ErrorClass {
    /// The endpoint asked us to slow down. `hint_secs` carries a
    /// server-supplied wait in seconds, where one was found in the message.
    RateLimited { hint_secs: Option<u64>, detail: String },
    /// The transport timed out waiting for a response.
    TimedOut,
    /// Connection refused, DNS failure, or another transport fault.
    TransportFailed { detail: String },
    /// A non-retryable response: malformed request, auth rejection,
    /// or an unclassified HTTP status.
    Terminal { detail: String },
}

/// The immutable retry configuration.
#[derive(Clone, PartialEq, Eq, Structural, Debug)]
pub struct RetryPolicy {
    pub max_retries: u64,
    pub initial_delay_ms: u64,
    pub multiplier: u64,
    pub cap_ms: u64,
}

/// The per-call backoff counters, local to one `execute` call and
/// threaded through each loop iteration as a value.
#[derive(Clone, Copy, PartialEq, Eq, Structural, Debug)]
pub struct RetryState {
    /// How many failed sends have been absorbed so far in this call.
    pub attempt: u64,
    /// The next non-hinted delay before capping, in milliseconds.
    pub delay_ms: u64,
}

/// What the policy tells the dispatcher to do after a failed attempt.
#[derive(Clone, Debug)]
pub enum RetryDecision {
    /// Give up and surface this error to the caller.
    Stop(ProviderError),
    /// Sleep `delay_ms`, then try again from state `next`.
    Wait { delay_ms: u64, next: RetryState },
}

impl RetryPolicy {
    /// A meaningful policy never shrinks the delay between attempts.
    pub open spec fn wf(self) -> bool {
        self.multiplier >= 1
    }

    /// The stock configuration used by the dispatcher.
    pub fn new_default() -> (p: RetryPolicy)
        ensures
            p == (RetryPolicy {
                max_retries: DEFAULT_MAX_RETRIES,
                initial_delay_ms: DEFAULT_INITIAL_DELAY_MS,
                multiplier: DEFAULT_BACKOFF_MULTIPLIER,
                cap_ms: DEFAULT_DELAY_CAP_MS,
            }),
            p.wf(),
    {
        RetryPolicy {
            max_retries: DEFAULT_MAX_RETRIES,
            initial_delay_ms: DEFAULT_INITIAL_DELAY_MS,
            multiplier: DEFAULT_BACKOFF_MULTIPLIER,
            cap_ms: DEFAULT_DELAY_CAP_MS,
        }
    }
}

impl RetryState {
    /// The counters at the start of one `execute` call.
    pub open spec fn spec_fresh(policy: RetryPolicy) -> RetryState {
        RetryState { attempt: 0, delay_ms: policy.initial_delay_ms }
    }

    /// Resets the counters for a new call.
    pub fn fresh(policy: &RetryPolicy) -> (s: RetryState)
        ensures
            s == RetryState::spec_fresh(*policy),
    {
        RetryState { attempt: 0, delay_ms: policy.initial_delay_ms }
    }
}

/// Whether re-sending the request may succeed without caller intervention.
pub open spec fn is_retryable(class: ErrorClass) -> bool {
    match class {
        ErrorClass::RateLimited { .. } => true,
        ErrorClass::TimedOut => true,
        ErrorClass::TransportFailed { .. } => false,
        ErrorClass::Terminal { .. } => false,
    }
}

/// The concrete error a classification surfaces when the dispatcher stops.
pub open spec fn error_of(class: ErrorClass) -> ProviderError {
    match class {
        ErrorClass::RateLimited { detail, .. } => ProviderError::RateLimitExceeded(detail),
        ErrorClass::TimedOut => ProviderError::RequestTimedOut,
        ErrorClass::TransportFailed { detail } => ProviderError::TransportFailed(detail),
        ErrorClass::Terminal { detail } => ProviderError::UpstreamError(detail),
    }
}

/// Turns a classification into the error surfaced to the caller.
pub fn to_error(class: ErrorClass) -> (e: ProviderError)
    ensures
        e == error_of(class),
{
    match class {
        ErrorClass::RateLimited { detail, .. } => ProviderError::RateLimitExceeded(detail),
        ErrorClass::TimedOut => ProviderError::RequestTimedOut,
        ErrorClass::TransportFailed { detail } => ProviderError::TransportFailed(detail),
        ErrorClass::Terminal { detail } => ProviderError::UpstreamError(detail),
    }
}

/// Multiplication on u64 that holds at the top of the range
/// instead of overflowing.
pub open spec fn sat_mul64(a: u64, b: u64) -> u64 {
    if a * b > u64::MAX {
        u64::MAX
    } else {
        (a * b) as u64
    }
}

/// The smaller of two u64 values.
pub open spec fn min64(a: u64, b: u64) -> u64 {
    if a < b {
        a
    } else {
        b
    }
}

fn sat_mul(a: u64, b: u64) -> (r: u64)
    ensures
        r == sat_mul64(a, b),
{
    match a.checked_mul(b) {
        Some(v) => v,
        None => u64::MAX,
    }
}

/// What `decide` returns, as a mathematical function of its inputs.
///
/// Terminal classifications stop at once. A retryable failure past the
/// budget stops too, surfacing that same failure. Within the budget, a
/// server hint of `n` seconds is used verbatim without touching the
/// exponential counter; otherwise the capped current delay is emitted
/// and the counter advances by the multiplier.
pub open spec fn spec_decide(policy: RetryPolicy, class: ErrorClass, state: RetryState) -> RetryDecision {
    if !is_retryable(class) || state.attempt >= policy.max_retries {
        RetryDecision::Stop(error_of(class))
    } else {
        match class {
            ErrorClass::RateLimited { hint_secs: Some(n), .. } => RetryDecision::Wait {
                delay_ms: sat_mul64(n, 1000),
                next: RetryState { attempt: (state.attempt + 1) as u64, delay_ms: state.delay_ms },
            },
            _ => RetryDecision::Wait {
                delay_ms: min64(state.delay_ms, policy.cap_ms),
                next: RetryState {
                    attempt: (state.attempt + 1) as u64,
                    delay_ms: sat_mul64(state.delay_ms, policy.multiplier),
                },
            },
        }
    }
}

/// Pure retry decision: given the classification of the attempt that just
/// failed and the counters so far, stop or wait-then-retry.
pub fn decide(policy: &RetryPolicy, class: ErrorClass, state: RetryState) -> (d: RetryDecision)
    ensures
        d == spec_decide(*policy, class, state),
{
    let retryable = matches!(class, ErrorClass::RateLimited { .. } | ErrorClass::TimedOut);
    if !retryable || state.attempt >= policy.max_retries {
        RetryDecision::Stop(to_error(class))
    } else {
        match class {
            ErrorClass::RateLimited { hint_secs: Some(n), .. } => RetryDecision::Wait {
                delay_ms: sat_mul(n, 1000),
                next: RetryState { attempt: state.attempt + 1, delay_ms: state.delay_ms },
            },
            _ => {
                let emitted = if state.delay_ms < policy.cap_ms {
                    state.delay_ms
                } else {
                    policy.cap_ms
                };
                RetryDecision::Wait {
                    delay_ms: emitted,
                    next: RetryState {
                        attempt: state.attempt + 1,
                        delay_ms: sat_mul(state.delay_ms, policy.multiplier),
                    },
                }
            },
        }
    }
}

/// The backoff counters after `k` consecutive non-hinted retryable
/// failures of a fresh call, while the budget allows them.
pub open spec fn backoff_state(policy: RetryPolicy, k: nat) -> RetryState
    decreases k,
{
    if k == 0 {
        RetryState::spec_fresh(policy)
    } else {
        spec_decide(
            policy,
            ErrorClass::TimedOut,
            backoff_state(policy, (k - 1) as nat),
        )->Wait_next
    }
}

/// The stored, pre-cap delay after `k` consecutive non-hinted retryable
/// failures: the initial delay multiplied `k` times by the multiplier.
pub open spec fn nth_delay(policy: RetryPolicy, k: nat) -> u64
    decreases k,
{
    if k == 0 {
        policy.initial_delay_ms
    } else {
        sat_mul64(nth_delay(policy, (k - 1) as nat), policy.multiplier)
    }
}

/// The exponential schedule: along a run of consecutive non-hinted
/// retryable failures within the budget, the `k`-th wait (counted from
/// zero) is exactly the initial delay multiplied `k` times, held at the
/// cap.
pub proof fn lemma_backoff_schedule(policy: RetryPolicy, k: nat)
    requires
        k < policy.max_retries,
    ensures
        backoff_state(policy, k).attempt == k,
        backoff_state(policy, k).delay_ms == nth_delay(policy, k),
        spec_decide(policy, ErrorClass::TimedOut, backoff_state(policy, k))
            == (RetryDecision::Wait {
            delay_ms: min64(nth_delay(policy, k), policy.cap_ms),
            next: backoff_state(policy, (k + 1) as nat),
        }),
    decreases k,
{
    if k != 0 {
        lemma_backoff_schedule(policy, (k - 1) as nat);
    }
}

/// A server-supplied wait hint of `n` seconds is used verbatim — the next
/// delay is exactly `n` seconds — and the exponential counter is unaffected,
/// whatever it currently holds.
pub proof fn lemma_hint_used_verbatim(
    policy: RetryPolicy,
    n: u64,
    detail: String,
    state: RetryState,
)
    requires
        state.attempt < policy.max_retries,
        n * 1000 <= u64::MAX,
    ensures
        ({
            let class = ErrorClass::RateLimited { hint_secs: Some(n), detail };
            spec_decide(policy, class, state) == RetryDecision::Wait {
                delay_ms: (n * 1000) as u64,
                next: RetryState { attempt: (state.attempt + 1) as u64, delay_ms: state.delay_ms },
            }
        }),
{
}

/// A non-hinted retryable failure within the budget waits exactly the capped
/// current delay — never more than the cap — and the stored delay never
/// shrinks from one attempt to the next.
pub proof fn lemma_backoff_capped_and_monotone(
    policy: RetryPolicy,
    class: ErrorClass,
    state: RetryState,
)
    requires
        policy.wf(),
        state.attempt < policy.max_retries,
        class matches ErrorClass::TimedOut || class matches ErrorClass::RateLimited {
            hint_secs: None,
            ..
        },
    ensures
        spec_decide(policy, class, state) matches RetryDecision::Wait { delay_ms, next }
            && delay_ms == min64(state.delay_ms, policy.cap_ms)
            && delay_ms <= policy.cap_ms
            && next.delay_ms >= state.delay_ms
            && next.attempt == state.attempt + 1,
{
    assert(state.delay_ms * policy.multiplier >= state.delay_ms) by (nonlinear_arith)
        requires
            policy.multiplier >= 1,
    ;
}

} // verus!
