use vstd::prelude::*;

use crate::errors::ProviderError;
use crate::hint::{parse_retry_hint, spec_hint};
use crate::retry::{
    decide, error_of, is_retryable, spec_decide, ErrorClass, RetryDecision, RetryPolicy,
    RetryState,
};

verus! {

/// How one send over the transport failed, as plain values.
#[derive(Clone, Debug)]
pub enum SendFailure {
    /// A response arrived but was rejected. `rate_limited` tells whether it
    /// signalled rate limiting; `detail` carries the reported message.
    Rejected { rate_limited: bool, detail: String },
    /// The request never completed. `timed_out` tells a timeout apart from
    /// any other transport fault.
    Transport { timed_out: bool, detail: String },
}

/// Everything one attempt of the dispatch loop can come back with.
#[derive(Clone, Debug)]
pub enum AttemptOutcome {
    /// The token fetch before the send failed.
    TokenFailed { detail: String },
    /// The send succeeded with a well-formed body, held by the caller.
    Delivered,
    /// The send failed.
    Failed(SendFailure),
}

/// What one turn of the dispatch loop tells the caller to do.
#[derive(Clone, Debug)]
pub enum StepOutcome {
    /// Hand the delivered body to the caller.
    Success,
    /// Surface this error to the caller.
    Failed(ProviderError),
    /// Sleep `delay_ms` milliseconds, then attempt again from `next`.
    Backoff { delay_ms: u64, next: RetryState },
}

/// The classification of a failed send. A rejection that signals rate
/// limiting carries the wait hint parsed from its message; any other
/// rejection is terminal. A transport timeout is retryable; any other
/// transport fault is terminal.
pub open spec fn spec_classify(f: SendFailure) -> ErrorClass {
    match f {
        SendFailure::Rejected { rate_limited, detail } => {
            if rate_limited {
                ErrorClass::RateLimited { hint_secs: spec_hint(detail@), detail }
            } else {
                ErrorClass::Terminal { detail }
            }
        },
        SendFailure::Transport { timed_out, detail } => {
            if timed_out {
                ErrorClass::TimedOut
            } else {
                ErrorClass::TransportFailed { detail }
            }
        },
    }
}

/// Derives the error classification of a failed send.
pub fn classify(f: SendFailure) -> (c: ErrorClass)
    ensures
        c == spec_classify(f),
{
    match f {
        SendFailure::Rejected { rate_limited, detail } => {
            if rate_limited {
                let hint_secs = parse_retry_hint(detail.as_str());
                ErrorClass::RateLimited { hint_secs, detail }
            } else {
                ErrorClass::Terminal { detail }
            }
        },
        SendFailure::Transport { timed_out, detail } => {
            if timed_out {
                ErrorClass::TimedOut
            } else {
                ErrorClass::TransportFailed { detail }
            }
        },
    }
}

/// One turn of the dispatch state machine, as a mathematical function.
///
/// A token fetch failure is terminal at once, whatever the counters hold.
/// A delivered body ends the call successfully. A failed send is
/// classified and handed to the retry policy.
pub open spec fn spec_step(policy: RetryPolicy, state: RetryState, event: AttemptOutcome) -> StepOutcome {
    match event {
        AttemptOutcome::TokenFailed { detail } => StepOutcome::Failed(
            ProviderError::AuthError(detail),
        ),
        AttemptOutcome::Delivered => StepOutcome::Success,
        AttemptOutcome::Failed(f) => match spec_decide(policy, spec_classify(f), state) {
            RetryDecision::Stop(e) => StepOutcome::Failed(e),
            RetryDecision::Wait { delay_ms, next } => StepOutcome::Backoff { delay_ms, next },
        },
    }
}

/// One turn of the dispatch loop: given what the attempt came back with,
/// return, surface an error, or back off and retry.
pub fn step(policy: &RetryPolicy, state: RetryState, event: AttemptOutcome) -> (r: StepOutcome)
    ensures
        r == spec_step(*policy, state, event),
{
    match event {
        AttemptOutcome::TokenFailed { detail } => StepOutcome::Failed(
            ProviderError::AuthError(detail),
        ),
        AttemptOutcome::Delivered => StepOutcome::Success,
        AttemptOutcome::Failed(f) => {
            let class = classify(f);
            match decide(policy, class, state) {
                RetryDecision::Stop(e) => StepOutcome::Failed(e),
                RetryDecision::Wait { delay_ms, next } => StepOutcome::Backoff { delay_ms, next },
            }
        },
    }
}

/// Lifts the send count of a finished run by the sends already made.
pub open spec fn lift_run(r: Option<(StepOutcome, nat)>, base: nat) -> Option<(StepOutcome, nat)> {
    match r {
        Option::None => Option::None,
        Option::Some((o, k)) => Option::Some((o, (k + base) as nat)),
    }
}

/// The whole dispatch loop over a given sequence of attempt outcomes:
/// the final outcome and how many sends were made. `None` when the
/// sequence ends while the loop still wants to retry.
pub open spec fn spec_run(
    policy: RetryPolicy,
    state: RetryState,
    events: Seq<AttemptOutcome>,
) -> Option<(StepOutcome, nat)>
    decreases events.len(),
{
    if events.len() == 0 {
        Option::None
    } else {
        match spec_step(policy, state, events[0]) {
            StepOutcome::Backoff { delay_ms, next } => lift_run(
                spec_run(policy, next, events.skip(1)),
                1,
            ),
            StepOutcome::Success => Option::Some((StepOutcome::Success, 1nat)),
            StepOutcome::Failed(e) => Option::Some((StepOutcome::Failed(e), 1nat)),
        }
    }
}

/// Runs the dispatch loop over the outcomes of successive attempts,
/// returning the final outcome and the number of sends made. However the
/// attempts go, no more than `max_retries + 1` sends are ever made.
pub fn run_dispatch(policy: &RetryPolicy, events: Vec<AttemptOutcome>) -> (r: (StepOutcome, usize))
    requires
        events@.len() > policy.max_retries,
    ensures
        spec_run(*policy, RetryState::spec_fresh(*policy), events@) == Option::Some(
            (r.0, r.1 as nat),
        ),
        r.1 <= policy.max_retries + 1,
{
    let ghost all = events@;
    proof {
        vstd::std_specs::vec::axiom_spec_len(&events);
    }
    let mut rest = events;
    let mut state = RetryState::fresh(policy);
    let mut sends: usize = 0;
    loop
        invariant
            all == events@,
            all.len() <= usize::MAX,
            all.len() > policy.max_retries,
            rest@ == all.skip(sends as int),
            state.attempt == sends,
            sends <= policy.max_retries,
            spec_run(*policy, RetryState::spec_fresh(*policy), all) == lift_run(
                spec_run(*policy, state, all.skip(sends as int)),
                sends as nat,
            ),
        decreases all.len() - sends,
    {
        let ev = rest.remove(0);
        proof {
            assert(all.skip(sends as int)[0] == all[sends as int]);
            assert(all.skip(sends as int).remove(0) =~= all.skip(sends as int + 1));
            assert(all.skip(sends as int).skip(1) =~= all.skip(sends as int + 1));
        }
        let r = step(policy, state, ev);
        match r {
            StepOutcome::Backoff { delay_ms: _, next } => {
                state = next;
                sends += 1;
            },
            StepOutcome::Success => {
                return (StepOutcome::Success, sends + 1);
            },
            StepOutcome::Failed(e) => {
                return (StepOutcome::Failed(e), sends + 1);
            },
        }
    }
}

/// Whether an attempt outcome is a failure the policy may retry.
pub open spec fn retryable_event(ev: AttemptOutcome) -> bool {
    ev matches AttemptOutcome::Failed(f) && is_retryable(spec_classify(f))
}

/// After the retry budget is spent on consecutive retryable failures, the
/// run surfaces an error, and the number of sends never exceeds one more
/// than the budget left at the starting state.
pub proof fn lemma_budget_exhaustion(
    policy: RetryPolicy,
    state: RetryState,
    events: Seq<AttemptOutcome>,
)
    requires
        state.attempt <= policy.max_retries,
        events.len() >= policy.max_retries - state.attempt + 1,
        forall|i: int|
            0 <= i <= policy.max_retries - state.attempt ==> retryable_event(#[trigger] events[i]),
    ensures
        spec_run(policy, state, events) matches Option::Some((o, k)) && o matches
            StepOutcome::Failed(e) && k == policy.max_retries - state.attempt + 1,
    decreases policy.max_retries - state.attempt,
{
    assert(retryable_event(events[0]));
    if state.attempt == policy.max_retries {
    } else {
        let next_state = spec_step(policy, state, events[0])->Backoff_next;
        assert(next_state.attempt == state.attempt + 1);
        assert(forall|i: int|
            0 <= i <= policy.max_retries - next_state.attempt ==> retryable_event(
                #[trigger] events.skip(1)[i],
            ));
        lemma_budget_exhaustion(policy, next_state, events.skip(1));
    }
}

/// A run that begins at a fresh state with `max_retries + 1` consecutive
/// retryable failures returns an error after exactly `max_retries + 1`
/// sends: the budget is spent and no further send is made.
pub proof fn lemma_retry_budget_spent(policy: RetryPolicy, events: Seq<AttemptOutcome>)
    requires
        events.len() > policy.max_retries,
        forall|i: int| 0 <= i <= policy.max_retries ==> retryable_event(#[trigger] events[i]),
    ensures
        spec_run(policy, RetryState::spec_fresh(policy), events) matches Option::Some((o, k))
            && o matches StepOutcome::Failed(e) && k == policy.max_retries + 1,
{
    lemma_budget_exhaustion(policy, RetryState::spec_fresh(policy), events);
}

/// A terminal classification on the first attempt returns at once, after
/// exactly one send and with the error of that classification, whatever
/// the counters hold.
pub proof fn lemma_terminal_returns_immediately(
    policy: RetryPolicy,
    state: RetryState,
    events: Seq<AttemptOutcome>,
)
    requires
        events.len() > 0,
        events[0] matches AttemptOutcome::Failed(f) && !is_retryable(spec_classify(f)),
    ensures
        spec_run(policy, state, events) == Option::Some(
            (StepOutcome::Failed(error_of(spec_classify(events[0]->Failed_0))), 1nat),
        ),
{
}

/// A token fetch failure short-circuits the run at once as an auth error,
/// on whatever attempt it happens: it is never absorbed by the retry budget.
pub proof fn lemma_token_failure_short_circuits(
    policy: RetryPolicy,
    state: RetryState,
    events: Seq<AttemptOutcome>,
    detail: String,
)
    requires
        events.len() > 0,
        events[0] == (AttemptOutcome::TokenFailed { detail }),
    ensures
        spec_run(policy, state, events) == Option::Some(
            (StepOutcome::Failed(ProviderError::AuthError(detail)), 1nat),
        ),
{
}

} // verus!
