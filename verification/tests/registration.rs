use nubilus_agent::api::{backoff_duration, ApiError};
use nubilus_agent::registration::{AbortReason, NextStep, Registration, MAX_ATTEMPTS};

/// What a registration run against a scripted backend came to.
struct Run {
    state: Registration,
    calls: u32,
    slept: u64,
    sleeps: Vec<u64>,
}

/// Drives a registration the way an agent does: call, take in the outcome,
/// sleep as told, until told to stop. The backend answers call number `n`
/// (counted from 0) with `answer(n)`.
fn drive(answer: impl Fn(u32) -> Result<String, ApiError>) -> Run {
    let mut state = Registration::new();
    let mut calls = 0;
    let mut sleeps = Vec::new();
    loop {
        assert!(calls < 1000, "the registration does not end");
        let outcome = answer(calls);
        calls += 1;
        let (next_state, step) = state.advance(outcome);
        state = next_state;
        match step {
            NextStep::Proceed | NextStep::AbortNow => break,
            NextStep::RetryAfter(secs) => sleeps.push(secs),
            NextStep::AbortAfter(secs) => {
                sleeps.push(secs);
                break;
            }
        }
    }
    Run { state, calls, slept: sleeps.iter().sum(), sleeps }
}

fn network_error() -> ApiError {
    ApiError::NetworkError("connection refused".to_string())
}

#[test]
fn registers_at_the_first_attempt() {
    let run = drive(|_| Ok("srv-1".to_string()));
    assert_eq!(run.state, Registration::Registered { server_id: "srv-1".to_string() });
    assert_eq!(run.calls, 1);
    assert_eq!(run.slept, 0);
}

#[test]
fn registers_after_nine_network_errors() {
    let run = drive(|call| if call < 9 { Err(network_error()) } else { Ok("srv-7".to_string()) });
    assert_eq!(run.state, Registration::Registered { server_id: "srv-7".to_string() });
    assert_eq!(run.calls, 10);
    assert_eq!(run.sleeps, vec![2, 4, 8, 16, 32, 64, 128, 256, 300]);
    assert_eq!(run.slept, (1..=9).map(backoff_duration).sum::<u64>());
    assert_eq!(run.slept, 810);
}

#[test]
fn aborts_at_once_when_unauthorized() {
    let run = drive(|_| Err(ApiError::Unauthorized));
    assert_eq!(run.state, Registration::Aborted { reason: AbortReason::InvalidCredentials });
    assert_eq!(run.calls, 1);
    assert_eq!(run.slept, 0);
    assert!(run.sleeps.is_empty());
}

#[test]
fn aborts_when_unauthorized_after_failures() {
    let run = drive(|call| if call < 3 { Err(ApiError::RateLimited) } else { Err(ApiError::Unauthorized) });
    assert_eq!(run.state, Registration::Aborted { reason: AbortReason::InvalidCredentials });
    assert_eq!(run.calls, 4);
    assert_eq!(run.sleeps, vec![2, 4, 8]);
}

#[test]
fn gives_up_after_ten_failures() {
    let run = drive(|call| Err(ApiError::ServerError(format!("failure {}", call + 1))));
    assert_eq!(
        run.state,
        Registration::Aborted {
            reason: AbortReason::AttemptsExhausted(ApiError::ServerError("failure 10".to_string()))
        }
    );
    assert_eq!(run.calls, 10);
    assert_eq!(run.calls, MAX_ATTEMPTS);
    assert_eq!(run.sleeps, vec![2, 4, 8, 16, 32, 64, 128, 256, 300, 300]);
    assert_eq!(run.slept, 1110);
}

#[test]
fn every_transient_error_is_retried() {
    let errors = [
        ApiError::NotRegistered,
        ApiError::RateLimited,
        ApiError::ServerError("oops".to_string()),
        ApiError::NetworkError("reset".to_string()),
        ApiError::Other("odd".to_string()),
    ];
    for error in errors {
        let (state, step) = Registration::new().advance(Err(error));
        assert_eq!(state, Registration::Registering { failures: 1 });
        assert_eq!(step, NextStep::RetryAfter(2));
    }
}

#[test]
fn each_step_of_a_retry() {
    let state = Registration::new();
    assert!(!state.is_over());
    let (state, step) = state.advance(Err(network_error()));
    assert_eq!(step, NextStep::RetryAfter(2));
    assert_eq!(state, Registration::Registering { failures: 1 });
    let (state, step) = state.advance(Err(ApiError::RateLimited));
    assert_eq!(step, NextStep::RetryAfter(4));
    assert_eq!(state, Registration::Registering { failures: 2 });
    let (state, step) = state.advance(Ok("srv-9".to_string()));
    assert_eq!(step, NextStep::Proceed);
    assert_eq!(state, Registration::Registered { server_id: "srv-9".to_string() });
    assert!(state.is_over());
}

#[test]
fn tenth_failure_sleeps_before_it_aborts() {
    let (state, step) = Registration::Registering { failures: 9 }.advance(Err(network_error()));
    assert_eq!(step, NextStep::AbortAfter(300));
    assert_eq!(
        state,
        Registration::Aborted { reason: AbortReason::AttemptsExhausted(network_error()) }
    );
}

#[test]
fn a_count_beyond_the_limit_still_aborts() {
    let (state, step) =
        Registration::Registering { failures: u32::MAX }.advance(Err(ApiError::RateLimited));
    assert_eq!(step, NextStep::AbortAfter(300));
    assert_eq!(
        state,
        Registration::Aborted { reason: AbortReason::AttemptsExhausted(ApiError::RateLimited) }
    );
}

#[test]
fn a_finished_registration_stays_as_it_is() {
    let registered = Registration::Registered { server_id: "srv-1".to_string() };
    let (state, step) = registered.clone().advance(Err(ApiError::Unauthorized));
    assert_eq!(state, registered);
    assert_eq!(step, NextStep::Proceed);

    let aborted = Registration::Aborted { reason: AbortReason::InvalidCredentials };
    let (state, step) = aborted.clone().advance(Ok("srv-2".to_string()));
    assert_eq!(state, aborted);
    assert_eq!(step, NextStep::AbortNow);
    assert!(aborted.is_over());
}

#[test]
fn abort_reasons_in_words() {
    assert_eq!(
        AbortReason::InvalidCredentials.message(),
        "Authentication failed - invalid API key"
    );
    assert_eq!(
        AbortReason::AttemptsExhausted(ApiError::NetworkError("timed out".to_string())).message(),
        "Failed to register after 10 attempts: Network error: timed out"
    );
    assert_eq!(
        AbortReason::AttemptsExhausted(ApiError::RateLimited).message(),
        "Failed to register after 10 attempts: Rate limited, backing off"
    );
}
