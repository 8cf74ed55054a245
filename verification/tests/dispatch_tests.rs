use azure_dispatch::dispatch::{
    classify, run_dispatch, step, AttemptOutcome, SendFailure, StepOutcome,
};
use azure_dispatch::errors::ProviderError;
use azure_dispatch::retry::{ErrorClass, RetryPolicy, RetryState};

fn rate_limited(msg: &str) -> AttemptOutcome {
    AttemptOutcome::Failed(SendFailure::Rejected {
        rate_limited: true,
        detail: String::from(msg),
    })
}

fn timed_out() -> AttemptOutcome {
    AttemptOutcome::Failed(SendFailure::Transport {
        timed_out: true,
        detail: String::from("deadline elapsed"),
    })
}

fn backoff_of(r: StepOutcome) -> (u64, RetryState) {
    match r {
        StepOutcome::Backoff { delay_ms, next } => (delay_ms, next),
        other => panic!("expected a backoff, got {:?}", other),
    }
}

#[test]
fn classification_reads_the_failure() {
    match classify(SendFailure::Rejected {
        rate_limited: true,
        detail: String::from("429: try again in 30 seconds"),
    }) {
        ErrorClass::RateLimited { hint_secs, detail } => {
            assert_eq!(hint_secs, Some(30));
            assert_eq!(detail, "429: try again in 30 seconds");
        }
        other => panic!("expected a rate-limit class, got {:?}", other),
    }
    assert!(matches!(
        classify(SendFailure::Rejected {
            rate_limited: false,
            detail: String::from("400 bad request"),
        }),
        ErrorClass::Terminal { .. }
    ));
    assert!(matches!(
        classify(SendFailure::Transport {
            timed_out: true,
            detail: String::new(),
        }),
        ErrorClass::TimedOut
    ));
    assert!(matches!(
        classify(SendFailure::Transport {
            timed_out: false,
            detail: String::from("dns failure"),
        }),
        ErrorClass::TransportFailed { .. }
    ));
}

#[test]
fn budget_exhaustion_returns_error_after_six_sends() {
    let p = RetryPolicy::new_default();
    let events = vec![
        rate_limited("rate limit exceeded"),
        rate_limited("rate limit exceeded"),
        rate_limited("rate limit exceeded"),
        rate_limited("rate limit exceeded"),
        rate_limited("rate limit exceeded"),
        rate_limited("rate limit exceeded"),
    ];
    let (outcome, sends) = run_dispatch(&p, events);
    assert_eq!(sends, 6);
    assert!(matches!(
        outcome,
        StepOutcome::Failed(ProviderError::RateLimitExceeded(_))
    ));
}

#[test]
fn terminal_failure_returns_after_one_send() {
    let p = RetryPolicy::new_default();
    let mut events = vec![AttemptOutcome::Failed(SendFailure::Rejected {
        rate_limited: false,
        detail: String::from("malformed payload"),
    })];
    // Padding that a correct dispatcher never reaches.
    while events.len() < 6 {
        events.push(AttemptOutcome::Delivered);
    }
    let (outcome, sends) = run_dispatch(&p, events);
    assert_eq!(sends, 1);
    match outcome {
        StepOutcome::Failed(ProviderError::UpstreamError(m)) => {
            assert_eq!(m, "malformed payload")
        }
        other => panic!("expected an upstream error, got {:?}", other),
    }
}

#[test]
fn token_failure_mid_retry_short_circuits_as_auth_error() {
    let p = RetryPolicy::new_default();
    let mut events = vec![
        rate_limited("rate limit exceeded"),
        AttemptOutcome::TokenFailed {
            detail: String::from("credential expired"),
        },
    ];
    while events.len() < 6 {
        events.push(AttemptOutcome::Delivered);
    }
    let (outcome, sends) = run_dispatch(&p, events);
    assert_eq!(sends, 2);
    match outcome {
        StepOutcome::Failed(ProviderError::AuthError(m)) => {
            assert_eq!(m, "credential expired")
        }
        other => panic!("expected an auth error, got {:?}", other),
    }
}

#[test]
fn success_after_retries_is_returned() {
    let p = RetryPolicy::new_default();
    let mut events = vec![timed_out(), timed_out(), AttemptOutcome::Delivered];
    while events.len() < 6 {
        events.push(AttemptOutcome::TokenFailed {
            detail: String::from("unreached"),
        });
    }
    let (outcome, sends) = run_dispatch(&p, events);
    assert_eq!(sends, 3);
    assert!(matches!(outcome, StepOutcome::Success));
}

#[test]
fn hinted_rate_limit_backs_off_by_the_hint() {
    let p = RetryPolicy::new_default();
    let state = RetryState::fresh(&p);
    let (delay, next) = backoff_of(step(
        &p,
        state,
        rate_limited("busy, try again in 30 seconds"),
    ));
    assert_eq!(delay, 30000);
    assert_eq!(next.delay_ms, 1000);
    assert_eq!(next.attempt, 1);
}

#[test]
fn interleaved_calls_keep_independent_schedules() {
    // Two logical calls drive their own state values through the same
    // policy; neither schedule disturbs the other.
    let p = RetryPolicy::new_default();
    let mut one = RetryState::fresh(&p);
    let mut two = RetryState::fresh(&p);

    let (d1, n1) = backoff_of(step(&p, one, timed_out()));
    one = n1;
    let (d2, n2) = backoff_of(step(&p, two, rate_limited("busy, try again in 9 seconds")));
    two = n2;
    let (d1b, n1b) = backoff_of(step(&p, one, timed_out()));
    one = n1b;
    let (d2b, n2b) = backoff_of(step(&p, two, timed_out()));
    two = n2b;

    assert_eq!((d1, d1b), (1000, 2000));
    assert_eq!((d2, d2b), (9000, 1000));
    assert_eq!(one.attempt, 2);
    assert_eq!(two.attempt, 2);
}
