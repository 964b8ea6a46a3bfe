//! The retry policy: what to do after a classified failure.

use vstd::prelude::*;
use crate::outcome::FailureKind;

verus! {

/// What to do after a failed attempt.
#[derive(Clone, Copy, Debug, PartialEq, Eq, Structural)]
pub enum Decision {
    /// Issue an identical attempt right away.
    RetryNow,
    /// Stop here and let an out-of-process scheduler retry later.
    DeferExternally,
    /// Stop for good.
    GiveUp,
}

/// Another attempt is safe only where the failure shows that nothing ran
/// remotely or where running twice is harmless.
pub open spec fn retry_permitted(kind: FailureKind, idempotent: bool) -> bool {
    kind.spec_rules_out_execution() || idempotent
}

/// The decision table.
pub open spec fn decision(kind: FailureKind, idempotent: bool, deadline_expired: bool) -> Decision {
    if !kind.spec_transient() || !retry_permitted(kind, idempotent) || deadline_expired {
        Decision::GiveUp
    } else if kind is SyncTransient {
        Decision::DeferExternally
    } else {
        Decision::RetryNow
    }
}

/// Giving up counts as a timeout exactly where the deadline alone stopped
/// a retry or a deferral that would otherwise have been made.
pub open spec fn stopped_by_deadline(kind: FailureKind, idempotent: bool, deadline_expired: bool) -> bool {
    deadline_expired && decision(kind, idempotent, false) != Decision::GiveUp
}

/// Whether another attempt after a failure of `kind` is safe.
pub fn is_retry_permitted(kind: FailureKind, idempotent: bool) -> (r: bool)
    ensures
        r == retry_permitted(kind, idempotent),
{
    kind.rules_out_execution() || idempotent
}

/// Decides what follows a failure of `kind`.
pub fn decide(kind: FailureKind, idempotent: bool, deadline_expired: bool) -> (r: Decision)
    ensures
        r == decision(kind, idempotent, deadline_expired),
        r == Decision::RetryNow ==> retry_permitted(kind, idempotent),
{
    if !kind.is_transient() || !is_retry_permitted(kind, idempotent) || deadline_expired {
        Decision::GiveUp
    } else {
        match kind {
            FailureKind::SyncTransient => Decision::DeferExternally,
            _ => Decision::RetryNow,
        }
    }
}

/// An execution-unknown failure of a non-idempotent operation is never
/// retried nor deferred, whatever time is left.
pub proof fn lemma_unknown_non_idempotent_gives_up(deadline_expired: bool)
    ensures
        decision(FailureKind::ExecutionUnknown, false, deadline_expired) == Decision::GiveUp,
{
}

/// Once the deadline has passed, the decision is never an immediate retry.
pub proof fn lemma_expired_never_retries(kind: FailureKind, idempotent: bool)
    ensures
        decision(kind, idempotent, true) != Decision::RetryNow,
{
}

} // verus!
