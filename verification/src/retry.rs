//! The retry wrapper: one policy value paired with one service value.

use vstd::prelude::*;

verus! {

/// A service combined with a policy deciding whether failed calls are
/// re-issued.  The wrapper itself behaves like a service: readiness checks
/// delegate to `service`, and each call drives the retry loop (see
/// [`crate::machine`]) on an independent working copy of the pair, so
/// concurrent calls never share in-flight state.
#[derive(Clone, Debug)]
pub struct Retry<P, S> {
    /// The strategy deciding whether a completed call is retried.
    pub policy: P,
    /// The wrapped service that performs the actual calls.
    pub service: S,
}

impl<P, S> Retry<P, S> {
    /// Pairs a policy with a service.
    pub fn new(policy: P, service: S) -> (r: Retry<P, S>)
        ensures
            r.policy == policy,
            r.service == service,
    {
        Retry { policy, service }
    }
}

} // verus!
