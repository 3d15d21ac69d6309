//! Registration at startup: retried with growing delays, given up after
//! too many failures or at once when the key is refused.

use vstd::prelude::*;
use vstd::string::StringExecFns;
use crate::api::{
    backoff_duration, backoff_secs, id_view, lemma_backoff_bounds, lemma_backoff_capped, ApiError,
    ApiErrorView, MAX_BACKOFF_SECS,
};

verus! {

/// Failed attempts after which registration is given up.
pub const MAX_ATTEMPTS: u32 = 10;

/// Why registration was given up.
#[derive(Debug, PartialEq, Eq)]
pub enum AbortReason {
    /// The backend refused the API key; trying again cannot help.
    InvalidCredentials,
    /// Every attempt failed; holds the error of the last one.
    AttemptsExhausted(ApiError),
}

/// An [`AbortReason`] with its error as plain text.
pub enum AbortReasonView {
    InvalidCredentials,
    AttemptsExhausted(ApiErrorView),
}

impl AbortReasonView {
    /// The reason in words.
    pub open spec fn text(self) -> Seq<char> {
        match self {
            AbortReasonView::InvalidCredentials => "Authentication failed - invalid API key"@,
            AbortReasonView::AttemptsExhausted(last) => "Failed to register after 10 attempts: "@
                + last.text(),
        }
    }
}

impl View for AbortReason {
    type V = AbortReasonView;

    open spec fn view(&self) -> AbortReasonView {
        match self {
            AbortReason::InvalidCredentials => AbortReasonView::InvalidCredentials,
            AbortReason::AttemptsExhausted(last) => AbortReasonView::AttemptsExhausted(last@),
        }
    }
}

impl Clone for AbortReason {
    fn clone(&self) -> (copy: AbortReason)
        ensures
            copy == *self,
    {
        match self {
            AbortReason::InvalidCredentials => AbortReason::InvalidCredentials,
            AbortReason::AttemptsExhausted(last) => AbortReason::AttemptsExhausted(last.clone()),
        }
    }
}

impl AbortReason {
    /// The reason in words.
    pub fn message(&self) -> (text: String)
        ensures
            text@ == self@.text(),
    {
        match self {
            AbortReason::InvalidCredentials => String::from_str(
                "Authentication failed - invalid API key",
            ),
            AbortReason::AttemptsExhausted(last) => String::from_str(
                "Failed to register after 10 attempts: ",
            ).concat(last.message().as_str()),
        }
    }
}

/// Where the registration of an agent stands.
#[derive(Debug, PartialEq, Eq)]
pub enum Registration {
    /// Not registered yet; `failures` attempts have failed so far.
    Registering { failures: u32 },
    /// The backend knows this server under `server_id`.
    Registered { server_id: String },
    /// Registration was given up.
    Aborted { reason: AbortReason },
}

/// A [`Registration`] with its texts as plain text.
pub enum RegistrationView {
    Registering { failures: u32 },
    Registered { server_id: Seq<char> },
    Aborted { reason: AbortReasonView },
}

impl View for Registration {
    type V = RegistrationView;

    open spec fn view(&self) -> RegistrationView {
        match self {
            Registration::Registering { failures } => RegistrationView::Registering {
                failures: *failures,
            },
            Registration::Registered { server_id } => RegistrationView::Registered {
                server_id: server_id@,
            },
            Registration::Aborted { reason } => RegistrationView::Aborted { reason: reason@ },
        }
    }
}

impl Clone for Registration {
    fn clone(&self) -> (copy: Registration)
        ensures
            copy == *self,
    {
        match self {
            Registration::Registering { failures } => Registration::Registering {
                failures: *failures,
            },
            Registration::Registered { server_id } => Registration::Registered {
                server_id: server_id.clone(),
            },
            Registration::Aborted { reason } => Registration::Aborted { reason: reason.clone() },
        }
    }
}

impl RegistrationView {
    /// While a registration is under way, fewer than [`MAX_ATTEMPTS`]
    /// attempts have failed.
    pub open spec fn well_formed(self) -> bool {
        self matches RegistrationView::Registering { failures } ==> failures < MAX_ATTEMPTS
    }
}

/// What the caller does after an attempt.
#[derive(Debug, Clone, Copy, PartialEq, Eq, Structural)]
pub enum NextStep {
    /// Registration is done: go on to steady operation.
    Proceed,
    /// Sleep for so many seconds, then attempt again.
    RetryAfter(u64),
    /// Stop at once, without sleeping.
    AbortNow,
    /// Sleep for so many seconds, then stop.
    AbortAfter(u64),
}

impl NextStep {
    /// Seconds that the step sleeps for.
    pub open spec fn sleep_secs(self) -> nat {
        match self {
            NextStep::Proceed => 0,
            NextStep::RetryAfter(secs) => secs as nat,
            NextStep::AbortNow => 0,
            NextStep::AbortAfter(secs) => secs as nat,
        }
    }

    /// Whether another attempt follows the step.
    pub open spec fn retries(self) -> bool {
        self is RetryAfter
    }
}

/// The outcome of one attempt, as the state machine sees it.
pub type Outcome = Result<Seq<char>, ApiErrorView>;

/// The state and the step that follow from `state` when an attempt ends in
/// `outcome`.
///
/// While registering: success registers; `Unauthorized` aborts at once, with
/// no sleep; any other error counts as a failure and is slept on for the
/// backoff of the number of failures so far. After that sleep the caller
/// tries again, unless this was failure number [`MAX_ATTEMPTS`], which aborts
/// with that error. A state in which registration is over stays as it is.
pub open spec fn step(state: RegistrationView, outcome: Outcome) -> (RegistrationView, NextStep) {
    match state {
        RegistrationView::Registering { failures } => match outcome {
            Ok(server_id) => (RegistrationView::Registered { server_id }, NextStep::Proceed),
            Err(ApiErrorView::Unauthorized) => (
                RegistrationView::Aborted { reason: AbortReasonView::InvalidCredentials },
                NextStep::AbortNow,
            ),
            Err(error) => {
                let delay = backoff_secs((failures + 1) as nat) as u64;
                if failures + 1 >= MAX_ATTEMPTS {
                    (
                        RegistrationView::Aborted {
                            reason: AbortReasonView::AttemptsExhausted(error),
                        },
                        NextStep::AbortAfter(delay),
                    )
                } else {
                    (
                        RegistrationView::Registering { failures: (failures + 1) as u32 },
                        NextStep::RetryAfter(delay),
                    )
                }
            },
        },
        RegistrationView::Registered { .. } => (state, NextStep::Proceed),
        RegistrationView::Aborted { .. } => (state, NextStep::AbortNow),
    }
}

/// A step keeps a registration well formed, and tells the caller to try
/// again exactly when the registration is still under way.
pub proof fn lemma_step_is_consistent(state: RegistrationView, outcome: Outcome)
    ensures
        state.well_formed() ==> step(state, outcome).0.well_formed(),
        step(state, outcome).1.retries() <==> step(state, outcome).0 is Registering,
        step(state, outcome).1 is Proceed <==> step(state, outcome).0 is Registered,
        step(state, outcome).1.sleep_secs() <= MAX_BACKOFF_SECS,
{
    if state is Registering {
        lemma_backoff_bounds((state->failures + 1) as nat);
    }
}

impl Registration {
    /// The state before the first attempt.
    pub fn new() -> (state: Registration)
        ensures
            state@ == (RegistrationView::Registering { failures: 0 }),
            state@.well_formed(),
    {
        Registration::Registering { failures: 0 }
    }

    /// Whether registration is over, for better or worse.
    pub fn is_over(&self) -> (over: bool)
        ensures
            over == !(self@ is Registering),
    {
        match self {
            Registration::Registering { .. } => false,
            _ => true,
        }
    }

    /// Takes in the outcome of an attempt: gives the state that follows and
    /// says what to do next.
    pub fn advance(self, outcome: Result<String, ApiError>) -> (next: (Registration, NextStep))
        ensures
            (next.0@, next.1) == step(self@, id_view(outcome)),
            self@.well_formed() ==> next.0@.well_formed(),
    {
        match self {
            Registration::Registering { failures } => match outcome {
                Ok(server_id) => (Registration::Registered { server_id }, NextStep::Proceed),
                Err(ApiError::Unauthorized) => (
                    Registration::Aborted { reason: AbortReason::InvalidCredentials },
                    NextStep::AbortNow,
                ),
                Err(error) => {
                    if failures >= MAX_ATTEMPTS - 1 {
                        proof {
                            lemma_backoff_capped((failures + 1) as nat);
                            lemma_backoff_capped(MAX_ATTEMPTS as nat);
                        }
                        (
                            Registration::Aborted { reason: AbortReason::AttemptsExhausted(error) },
                            NextStep::AbortAfter(backoff_duration(MAX_ATTEMPTS)),
                        )
                    } else {
                        let attempt: u32 = failures + 1;
                        proof {
                            lemma_backoff_bounds(attempt as nat);
                        }
                        (
                            Registration::Registering { failures: attempt },
                            NextStep::RetryAfter(backoff_duration(attempt)),
                        )
                    }
                },
            },
            Registration::Registered { server_id } => (
                Registration::Registered { server_id },
                NextStep::Proceed,
            ),
            Registration::Aborted { reason } => (Registration::Aborted { reason }, NextStep::AbortNow),
        }
    }
}

/// An error that is worth another attempt: any but `Unauthorized`.
pub open spec fn is_transient(outcome: Outcome) -> bool {
    outcome is Err && outcome != Err::<Seq<char>, ApiErrorView>(ApiErrorView::Unauthorized)
}

/// Seconds slept over the first `failures` failed attempts: the sum of the
/// backoff delays of the attempts 1 to `failures`.
pub open spec fn total_backoff(failures: nat) -> nat
    decreases failures,
{
    if failures == 0 {
        0
    } else {
        total_backoff((failures - 1) as nat) + backoff_secs(failures)
    }
}

/// What a whole registration came to.
pub struct Trace {
    /// The state it ended in.
    pub state: RegistrationView,
    /// How many attempts were made.
    pub calls: nat,
    /// How many seconds were slept in all.
    pub slept: nat,
}

/// Runs a registration from its start against a backend whose answer to
/// attempt number `i` would be `outcomes[i]`: attempts are made, and their
/// steps followed, for as long as the state is `Registering` and there are
/// answers left.
pub open spec fn run(outcomes: Seq<Outcome>) -> Trace
    decreases outcomes.len(),
{
    if outcomes.len() == 0 {
        Trace { state: RegistrationView::Registering { failures: 0 }, calls: 0, slept: 0 }
    } else {
        let before = run(outcomes.drop_last());
        if before.state is Registering {
            let (state, next) = step(before.state, outcomes.last());
            Trace { state, calls: before.calls + 1, slept: before.slept + next.sleep_secs() }
        } else {
            before
        }
    }
}

/// While every attempt fails with a transient error, and fewer than
/// [`MAX_ATTEMPTS`] have, the registration is still under way, has made one
/// call per answer and has slept for the backoff of each failure.
pub proof fn lemma_run_while_failing(outcomes: Seq<Outcome>)
    requires
        outcomes.len() < MAX_ATTEMPTS,
        forall|i: int| 0 <= i < outcomes.len() ==> is_transient(#[trigger] outcomes[i]),
    ensures
        run(outcomes) == (Trace {
            state: RegistrationView::Registering { failures: outcomes.len() as u32 },
            calls: outcomes.len(),
            slept: total_backoff(outcomes.len()),
        }),
    decreases outcomes.len(),
{
    if outcomes.len() > 0 {
        let earlier = outcomes.drop_last();
        assert forall|i: int| 0 <= i < earlier.len() implies is_transient(
            #[trigger] earlier[i],
        ) by {
            assert(earlier[i] == outcomes[i]);
        }
        lemma_run_while_failing(earlier);
        assert(is_transient(outcomes[outcomes.len() - 1]));
        lemma_backoff_bounds(outcomes.len());
    }
}

/// Once a registration is over, no further answer changes what it came to.
pub proof fn lemma_run_settled(outcomes: Seq<Outcome>, used: int)
    requires
        0 <= used <= outcomes.len(),
        !(run(outcomes.take(used)).state is Registering),
    ensures
        run(outcomes) == run(outcomes.take(used)),
    decreases outcomes.len() - used,
{
    if used < outcomes.len() {
        assert(outcomes.drop_last().take(used) == outcomes.take(used));
        lemma_run_settled(outcomes.drop_last(), used);
    } else {
        assert(outcomes.take(used) == outcomes);
    }
}

/// A registration never makes more than [`MAX_ATTEMPTS`] calls, nor more
/// than there are answers; while it is under way it has failed as often as
/// it has called, and fewer than [`MAX_ATTEMPTS`] times.
pub proof fn lemma_run_bounded(outcomes: Seq<Outcome>)
    ensures
        run(outcomes).calls <= MAX_ATTEMPTS,
        run(outcomes).calls <= outcomes.len(),
        run(outcomes).slept <= total_backoff(run(outcomes).calls),
        run(outcomes).state matches RegistrationView::Registering { failures } ==> failures
            == run(outcomes).calls && failures < MAX_ATTEMPTS && run(outcomes).slept
            == total_backoff(failures as nat),
    decreases outcomes.len(),
{
    if outcomes.len() > 0 {
        lemma_run_bounded(outcomes.drop_last());
        let before = run(outcomes.drop_last());
        if before.state is Registering {
            lemma_backoff_bounds(before.calls + 1);
        }
    }
}

/// Where the first `failures` attempts fail with transient errors, fewer
/// than [`MAX_ATTEMPTS`] of them, and the next one succeeds, the agent is
/// registered under the identity that this attempt returned, after
/// `failures + 1` calls and the backoff of each failure.
pub proof fn lemma_registers_after_failures(outcomes: Seq<Outcome>, failures: int)
    requires
        0 <= failures < MAX_ATTEMPTS,
        failures < outcomes.len(),
        forall|i: int| 0 <= i < failures ==> is_transient(#[trigger] outcomes[i]),
        outcomes[failures] is Ok,
    ensures
        run(outcomes) == (Trace {
            state: RegistrationView::Registered { server_id: outcomes[failures]->Ok_0 },
            calls: (failures + 1) as nat,
            slept: total_backoff(failures as nat),
        }),
{
    let failed = outcomes.take(failures);
    let used = outcomes.take(failures + 1);
    lemma_run_while_failing(failed);
    assert(used.drop_last() == failed);
    assert(used.last() == outcomes[failures]);
    lemma_run_settled(outcomes, failures + 1);
}

/// Where an attempt is refused as `Unauthorized`, after fewer than
/// [`MAX_ATTEMPTS`] transient failures, the registration aborts with that
/// call and sleeps no more. A backend that refuses the first attempt is
/// called once and never slept on.
pub proof fn lemma_aborts_on_unauthorized(outcomes: Seq<Outcome>, failures: int)
    requires
        0 <= failures < MAX_ATTEMPTS,
        failures < outcomes.len(),
        forall|i: int| 0 <= i < failures ==> is_transient(#[trigger] outcomes[i]),
        outcomes[failures] == Err::<Seq<char>, ApiErrorView>(ApiErrorView::Unauthorized),
    ensures
        run(outcomes) == (Trace {
            state: RegistrationView::Aborted { reason: AbortReasonView::InvalidCredentials },
            calls: (failures + 1) as nat,
            slept: total_backoff(failures as nat),
        }),
        failures == 0 ==> run(outcomes).calls == 1 && run(outcomes).slept == 0,
{
    let failed = outcomes.take(failures);
    let used = outcomes.take(failures + 1);
    lemma_run_while_failing(failed);
    assert(used.drop_last() == failed);
    assert(used.last() == outcomes[failures]);
    lemma_run_settled(outcomes, failures + 1);
}

/// Where the first [`MAX_ATTEMPTS`] attempts all fail with transient errors,
/// the registration aborts with the error of the last of them, after exactly
/// that many calls and the backoff of each.
pub proof fn lemma_gives_up_after_max_attempts(outcomes: Seq<Outcome>)
    requires
        outcomes.len() >= MAX_ATTEMPTS,
        forall|i: int| 0 <= i < MAX_ATTEMPTS ==> is_transient(#[trigger] outcomes[i]),
    ensures
        run(outcomes) == (Trace {
            state: RegistrationView::Aborted {
                reason: AbortReasonView::AttemptsExhausted(outcomes[MAX_ATTEMPTS - 1]->Err_0),
            },
            calls: MAX_ATTEMPTS as nat,
            slept: total_backoff(MAX_ATTEMPTS as nat),
        }),
{
    let failed = outcomes.take(MAX_ATTEMPTS - 1);
    let used = outcomes.take(MAX_ATTEMPTS as int);
    lemma_run_while_failing(failed);
    assert(used.drop_last() == failed);
    assert(used.last() == outcomes[MAX_ATTEMPTS - 1]);
    assert(is_transient(outcomes[MAX_ATTEMPTS - 1]));
    lemma_backoff_bounds(MAX_ATTEMPTS as nat);
    lemma_run_settled(outcomes, MAX_ATTEMPTS as int);
}

} // verus!
