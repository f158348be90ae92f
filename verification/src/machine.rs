//! The retry loop as a state machine.
//!
//! One invocation of the wrapper walks these states.  The caller of this
//! module (the asynchronous driver around the library) performs the
//! suspending operations — the service call, the decision future, the
//! readiness check — and hands their results to the transition functions
//! below, which decide the next state.  The transitions are total,
//! deterministic and verified against the spec functions `after_attempt`,
//! `after_evaluation` and `after_readiness`.

use vstd::prelude::*;

verus! {

/// The state of one in-flight invocation of the retry wrapper.
///
/// Type parameters: `P` the policy, `Req` the request, `Res` the success
/// value of a call, `E` the error of a call (and of the readiness check).
#[derive(Debug)]
pub enum RetryState<P, Req, Res, E> {
    /// A call is being issued: `request` is about to be consumed by the
    /// service.  Before consuming it, the driver asks the policy for a
    /// duplicate to use if a retry becomes necessary.
    Attempting { policy: P, request: Req },
    /// A call has completed with `outcome`, and a duplicate `next_request`
    /// exists; the policy is being asked whether to retry.
    Evaluating { policy: P, next_request: Req, outcome: Result<Res, E> },
    /// The policy decided to retry with an updated `policy`; the loop waits
    /// for the service to become ready before issuing `next_request`.
    AwaitingReady { policy: P, next_request: Req },
    /// The loop has finished; `outcome` is handed back to the caller.
    Done { outcome: Result<Res, E> },
}

/// What became of the policy's retry decision for a completed call.
#[derive(Debug)]
pub enum Decision<P> {
    /// The policy declined to produce a decision: the loop terminates and
    /// the outcome is returned as-is.
    NoRetry,
    /// A decision future was produced and resolved with an updated policy:
    /// the retry proceeds under that policy.
    Updated(P),
    /// A decision future was produced but failed: the retry is abandoned
    /// and the original outcome is returned, not an error about the
    /// failed decision.
    Failed,
}

/// The state after a service call completes.  `cloned` is what the policy's
/// request duplication returned before the call consumed the request;
/// `outcome` is what the call resolved to.  A request that could not be
/// duplicated can never be retried, so an absent `cloned` ends the loop
/// with the outcome unchanged, whatever the policy would have decided.
pub open spec fn after_attempt<P, Req, Res, E>(
    policy: P,
    cloned: Option<Req>,
    outcome: Result<Res, E>,
) -> RetryState<P, Req, Res, E> {
    match cloned {
        Option::None => RetryState::Done { outcome },
        Option::Some(next_request) => RetryState::Evaluating { policy, next_request, outcome },
    }
}

/// The state after the policy's retry decision is known.  Only a decision
/// future that resolved with an updated policy continues the loop; both an
/// absent decision and a failed decision future end it with the original
/// outcome.
pub open spec fn after_evaluation<P, Req, Res, E>(
    next_request: Req,
    outcome: Result<Res, E>,
    decision: Decision<P>,
) -> RetryState<P, Req, Res, E> {
    match decision {
        Decision::NoRetry => RetryState::Done { outcome },
        Decision::Updated(policy) => RetryState::AwaitingReady { policy, next_request },
        Decision::Failed => RetryState::Done { outcome },
    }
}

/// The state after the readiness check resolves.  Readiness lets the loop
/// re-enter `Attempting` with the duplicated request; a readiness failure
/// ends the loop with that failure, superseding any earlier outcome,
/// because no further call can be issued.
pub open spec fn after_readiness<P, Req, Res, E>(
    policy: P,
    next_request: Req,
    readiness: Result<(), E>,
) -> RetryState<P, Req, Res, E> {
    match readiness {
        Result::Ok(_) => RetryState::Attempting { policy, request: next_request },
        Result::Err(e) => RetryState::Done { outcome: Result::Err(e) },
    }
}

/// Transition out of [`RetryState::Attempting`], once the service call has
/// resolved.  The request itself was consumed by the call; `cloned` is the
/// duplicate obtained before it was consumed, if any.
pub fn on_attempted<P, Req, Res, E>(
    policy: P,
    cloned: Option<Req>,
    outcome: Result<Res, E>,
) -> (next: RetryState<P, Req, Res, E>)
    ensures
        next == after_attempt(policy, cloned, outcome),
{
    match cloned {
        Option::None => RetryState::Done { outcome },
        Option::Some(next_request) => RetryState::Evaluating { policy, next_request, outcome },
    }
}

/// Transition out of [`RetryState::Evaluating`], once the retry decision is
/// known.  On [`Decision::Updated`] the working policy is replaced by the
/// one the decision future produced; the previous policy is discarded.
pub fn on_evaluated<P, Req, Res, E>(
    next_request: Req,
    outcome: Result<Res, E>,
    decision: Decision<P>,
) -> (next: RetryState<P, Req, Res, E>)
    ensures
        next == after_evaluation(next_request, outcome, decision),
{
    match decision {
        Decision::NoRetry => RetryState::Done { outcome },
        Decision::Updated(policy) => RetryState::AwaitingReady { policy, next_request },
        Decision::Failed => RetryState::Done { outcome },
    }
}

/// Transition out of [`RetryState::AwaitingReady`], once the readiness
/// check has resolved.
pub fn on_ready<P, Req, Res, E>(
    policy: P,
    next_request: Req,
    readiness: Result<(), E>,
) -> (next: RetryState<P, Req, Res, E>)
    ensures
        next == after_readiness::<P, Req, Res, E>(policy, next_request, readiness),
{
    match readiness {
        Result::Ok(_) => RetryState::Attempting { policy, request: next_request },
        Result::Err(e) => RetryState::Done { outcome: Result::Err(e) },
    }
}

} // verus!
