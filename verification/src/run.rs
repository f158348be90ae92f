//! A model of whole runs of the retry loop, and the properties proved of it.
//!
//! The environment of one run — what each service call resolves to, what
//! the policy answers at each step — is modelled as a [`Script`] of
//! sequences indexed by attempt number.  [`run_from`] folds the machine's
//! transitions over a script and yields how many service calls the run
//! issued and which outcome it returned.  The proof functions below state
//! the loop's end-to-end behaviour over this model.

use vstd::prelude::*;
use crate::machine::{after_attempt, after_evaluation, after_readiness, Decision, RetryState};

verus! {

/// The behaviour of the environment during one run, indexed by attempt:
/// attempt `i` duplicates the request as `clones[i]`, resolves to
/// `outcomes[i]`, has its retry decision resolve as `decisions[i]`, and —
/// if the loop continues — sees the readiness check before attempt `i + 1`
/// resolve to `readiness[i]`.
pub struct Script<P, Req, Res, E> {
    /// What the policy's request duplication returns before each call.
    pub clones: Seq<Option<Req>>,
    /// What each service call resolves to.
    pub outcomes: Seq<Result<Res, E>>,
    /// How the retry decision after each call resolves.
    pub decisions: Seq<Decision<P>>,
    /// What the readiness check after each call resolves to.
    pub readiness: Seq<Result<(), E>>,
}

/// Orders the states so that one iteration of the loop strictly descends:
/// `Attempting` steps to `Evaluating` or `Done`, `Evaluating` to
/// `AwaitingReady` or `Done`, and only `AwaitingReady` re-enters
/// `Attempting`, spending one unit of fuel.
pub open spec fn state_rank<P, Req, Res, E>(state: RetryState<P, Req, Res, E>) -> nat {
    match state {
        RetryState::Done { .. } => 0nat,
        RetryState::AwaitingReady { .. } => 1nat,
        RetryState::Evaluating { .. } => 2nat,
        RetryState::Attempting { .. } => 3nat,
    }
}

/// Runs the loop from `state`, attempt index `i`, under `script`.
///
/// Yields `Some((calls, outcome))` when the loop reaches `Done` within
/// `fuel` retries, where `calls` counts the service calls issued from
/// `state` on; `None` when `fuel` retries were not enough.  `fuel` bounds
/// the model only: the loop itself has no built-in attempt ceiling, so a
/// script that keeps granting retries yields `None` for every fuel.
pub open spec fn run_from<P, Req, Res, E>(
    script: Script<P, Req, Res, E>,
    state: RetryState<P, Req, Res, E>,
    i: nat,
    fuel: nat,
) -> Option<(nat, Result<Res, E>)>
    decreases fuel, state_rank(state),
{
    match state {
        RetryState::Done { outcome } => Some((0nat, outcome)),
        RetryState::Attempting { policy, request } => {
            let next = after_attempt(policy, script.clones[i as int], script.outcomes[i as int]);
            match run_from(script, next, i, fuel) {
                Option::None => Option::None,
                Option::Some(rest) => Some(((rest.0 + 1) as nat, rest.1)),
            }
        },
        RetryState::Evaluating { policy, next_request, outcome } => {
            run_from(script, after_evaluation(next_request, outcome, script.decisions[i as int]), i, fuel)
        },
        RetryState::AwaitingReady { policy, next_request } => {
            match script.readiness[i as int] {
                Result::Err(e) => Some((0nat, Result::Err(e))),
                Result::Ok(u) => {
                    if fuel == 0 {
                        Option::None
                    } else {
                        run_from(
                            script,
                            after_readiness(policy, next_request, Result::Ok(u)),
                            (i + 1) as nat,
                            (fuel - 1) as nat,
                        )
                    }
                },
            }
        },
    }
}

/// A run started on `request` under `policy`: the loop begins by issuing
/// the request.
pub open spec fn run<P, Req, Res, E>(
    script: Script<P, Req, Res, E>,
    policy: P,
    request: Req,
    fuel: nat,
) -> Option<(nat, Result<Res, E>)> {
    run_from(script, RetryState::Attempting { policy, request }, 0nat, fuel)
}

/// If the policy's retry operation always returns an absent decision, the
/// wrapper issues exactly one service call and returns its outcome
/// unchanged, for any request.
pub proof fn lemma_one_call_when_policy_never_retries<P, Req, Res, E>(
    script: Script<P, Req, Res, E>,
    policy: P,
    request: Req,
    i: nat,
    fuel: nat,
)
    requires
        i < script.decisions.len(),
        forall|j: int| i <= j < script.decisions.len() ==> (#[trigger] script.decisions[j]) is NoRetry,
    ensures
        run_from(script, (RetryState::Attempting { policy, request }), i, fuel)
            == Some((1nat, script.outcomes[i as int])),
{
    reveal_with_fuel(run_from, 4);
    assert(script.decisions[i as int] is NoRetry);
}

/// If the request can never be duplicated, the wrapper issues exactly one
/// service call and returns its outcome unchanged, regardless of what the
/// policy would have decided.
pub proof fn lemma_one_call_when_request_not_duplicable<P, Req, Res, E>(
    script: Script<P, Req, Res, E>,
    policy: P,
    request: Req,
    i: nat,
    fuel: nat,
)
    requires
        i < script.clones.len(),
        forall|j: int| i <= j < script.clones.len() ==> (#[trigger] script.clones[j]) is None,
    ensures
        run_from(script, (RetryState::Attempting { policy, request }), i, fuel)
            == Some((1nat, script.outcomes[i as int])),
{
    reveal_with_fuel(run_from, 4);
    assert(script.clones[i as int] is None);
}

/// If every decision future fails, exactly one service call occurs and its
/// original outcome is returned, even though the policy produced a present
/// decision.
pub proof fn lemma_one_call_when_decision_fails<P, Req, Res, E>(
    script: Script<P, Req, Res, E>,
    policy: P,
    request: Req,
    i: nat,
    fuel: nat,
)
    requires
        i < script.decisions.len(),
        forall|j: int| i <= j < script.decisions.len() ==> (#[trigger] script.decisions[j]) is Failed,
    ensures
        run_from(script, (RetryState::Attempting { policy, request }), i, fuel)
            == Some((1nat, script.outcomes[i as int])),
{
    reveal_with_fuel(run_from, 4);
    assert(script.decisions[i as int] is Failed);
}

/// A policy that permits exactly `n` retries — an updated policy after
/// each of the first `n` calls, an absent decision thereafter — against a
/// service whose calls all fail: exactly `n + 1` service calls occur and
/// the last call's failure is returned.
pub proof fn lemma_exhaustion_returns_last_failure<P, Req, Res, E>(
    script: Script<P, Req, Res, E>,
    policy: P,
    request: Req,
    i: nat,
    n: nat,
    fuel: nat,
)
    requires
        fuel >= n,
        forall|j: int| i <= j <= i + n ==> (#[trigger] script.outcomes[j]) is Err,
        forall|j: int| i <= j <= i + n ==> (#[trigger] script.clones[j]) is Some,
        forall|j: int| i <= j < i + n ==> (#[trigger] script.decisions[j]) is Updated,
        script.decisions[(i + n) as int] is NoRetry,
        forall|j: int| i <= j < i + n ==> (#[trigger] script.readiness[j]) is Ok,
    ensures
        run_from(script, (RetryState::Attempting { policy, request }), i, fuel)
            == Some(((n + 1) as nat, script.outcomes[(i + n) as int])),
    decreases n,
{
    reveal_with_fuel(run_from, 4);
    assert(script.clones[i as int] is Some);
    if n == 0 {
        assert(script.decisions[i as int] is NoRetry);
    } else {
        assert(script.decisions[i as int] is Updated);
        assert(script.readiness[i as int] is Ok);
        let next_request = script.clones[i as int]->Some_0;
        let updated = script.decisions[i as int]->Updated_0;
        lemma_exhaustion_returns_last_failure(
            script,
            updated,
            next_request,
            (i + 1) as nat,
            (n - 1) as nat,
            (fuel - 1) as nat,
        );
    }
}

/// A policy that retries each of the first `k - 1` failures, against a
/// service that succeeds on attempt `k` (which the policy does not retry):
/// exactly `k` service calls occur and the success is returned.
pub proof fn lemma_success_ends_loop<P, Req, Res, E>(
    script: Script<P, Req, Res, E>,
    policy: P,
    request: Req,
    i: nat,
    k: nat,
    fuel: nat,
)
    requires
        k >= 1,
        fuel + 1 >= k,
        forall|j: int| i <= j < i + k - 1 ==> (#[trigger] script.outcomes[j]) is Err,
        forall|j: int| i <= j < i + k - 1 ==> (#[trigger] script.clones[j]) is Some,
        forall|j: int| i <= j < i + k - 1 ==> (#[trigger] script.decisions[j]) is Updated,
        forall|j: int| i <= j < i + k - 1 ==> (#[trigger] script.readiness[j]) is Ok,
        script.outcomes[i + k - 1] is Ok,
        script.decisions[i + k - 1] is NoRetry,
    ensures
        run_from(script, (RetryState::Attempting { policy, request }), i, fuel)
            == Some((k, script.outcomes[(i + k - 1) as int])),
    decreases k,
{
    reveal_with_fuel(run_from, 4);
    if k == 1 {
        assert(script.decisions[i as int] is NoRetry);
    } else {
        assert(script.clones[i as int] is Some);
        assert(script.decisions[i as int] is Updated);
        assert(script.readiness[i as int] is Ok);
        let next_request = script.clones[i as int]->Some_0;
        let updated = script.decisions[i as int]->Updated_0;
        lemma_success_ends_loop(
            script,
            updated,
            next_request,
            (i + 1) as nat,
            (k - 1) as nat,
            (fuel - 1) as nat,
        );
    }
}

/// A readiness failure aborts the loop with that readiness error,
/// superseding the call outcomes seen so far: if the policy keeps retrying
/// and the readiness check after call `m` fails, exactly `m` service calls
/// occur and the readiness error is returned — no call after attempt `m`
/// is issued.
pub proof fn lemma_readiness_failure_aborts<P, Req, Res, E>(
    script: Script<P, Req, Res, E>,
    policy: P,
    request: Req,
    i: nat,
    m: nat,
    fuel: nat,
)
    requires
        m >= 1,
        fuel + 1 >= m,
        forall|j: int| i <= j < i + m ==> (#[trigger] script.clones[j]) is Some,
        forall|j: int| i <= j < i + m ==> (#[trigger] script.decisions[j]) is Updated,
        forall|j: int| i <= j < i + m - 1 ==> (#[trigger] script.readiness[j]) is Ok,
        script.readiness[i + m - 1] is Err,
    ensures
        run_from(script, (RetryState::Attempting { policy, request }), i, fuel)
            == Some((m, Result::<Res, E>::Err(script.readiness[(i + m - 1) as int]->Err_0))),
    decreases m,
{
    reveal_with_fuel(run_from, 4);
    assert(script.clones[i as int] is Some);
    assert(script.decisions[i as int] is Updated);
    if m == 1 {
        assert(script.readiness[i as int] is Err);
    } else {
        assert(script.readiness[i as int] is Ok);
        let next_request = script.clones[i as int]->Some_0;
        let updated = script.decisions[i as int]->Updated_0;
        lemma_readiness_failure_aborts(
            script,
            updated,
            next_request,
            (i + 1) as nat,
            (m - 1) as nat,
            (fuel - 1) as nat,
        );
    }
}

} // verus!
