//! The requeue policy: after each reconcile attempt the controller hands the
//! external driver a delay until the next attempt for the same intent.
//!
//! Two fixed intervals suffice: a longer steady-state interval after a
//! successful apply (the next attempt only re-checks for drift) and a shorter
//! retry interval after any failure. The policy is flat: no backoff growth,
//! no jitter, no retry cutoff.

use vstd::prelude::*;
use crate::status::{OutcomeModel, ReconcileOutcome};

verus! {

/// Seconds until the next attempt after a successful apply.
pub const STEADY_INTERVAL_SECS: u64 = 30;

/// Seconds until the next attempt after a failed one.
pub const RETRY_INTERVAL_SECS: u64 = 10;

/// The delay an outcome maps to.
pub open spec fn spec_decide(outcome: OutcomeModel) -> u64 {
    match outcome {
        OutcomeModel::Applied => STEADY_INTERVAL_SECS,
        OutcomeModel::Failed(_) => RETRY_INTERVAL_SECS,
    }
}

/// Decides the delay, in seconds, until the next reconcile attempt.
pub fn decide(outcome: &ReconcileOutcome) -> (r: u64)
    ensures
        r == spec_decide(outcome@),
{
    match outcome {
        ReconcileOutcome::Applied => STEADY_INTERVAL_SECS,
        ReconcileOutcome::Failed(_) => RETRY_INTERVAL_SECS,
    }
}

} // verus!
