//! The status projector: it turns the outcome of one reconcile attempt into
//! the status document written back on the intent resource.
//!
//! The projection touches only the two fields the controller owns, `phase`
//! and `reason`; it is meant to be written back as a merge patch, so status
//! fields set by other actors survive.

use vstd::prelude::*;
use crate::intent::{opt_status_model, EdgeDeploymentStatus, StatusModel};

verus! {

/// Mathematical model of one reconcile attempt's outcome.
pub ghost enum OutcomeModel {
    Applied,
    Failed(Seq<char>),
}

/// The outcome of one reconcile attempt: the desired manifest was applied, or
/// the attempt failed with a detail that is preserved for the status reason.
/// A validation failure and a failed gateway call both surface here.
#[derive(Clone, Debug, PartialEq, Eq)]
pub enum ReconcileOutcome {
    Applied,
    Failed(String),
}

impl View for ReconcileOutcome {
    type V = OutcomeModel;

    open spec fn view(&self) -> OutcomeModel {
        match self {
            ReconcileOutcome::Applied => OutcomeModel::Applied,
            ReconcileOutcome::Failed(d) => OutcomeModel::Failed(d@),
        }
    }
}

/// The phase reported after a successful apply.
pub open spec fn running_phase() -> Seq<char> {
    "Running"@
}

/// The phase reported after a failed attempt.
pub open spec fn error_phase() -> Seq<char> {
    "Error"@
}

/// A status with neither phase nor reason set, as an intent carries before
/// its first reconcile attempt completes.
pub open spec fn empty_status() -> StatusModel {
    StatusModel { phase: None, reason: None }
}

/// The previous status an attempt starts from: the one already on the intent,
/// or the empty one if none was ever written.
pub open spec fn previous_status(s: Option<StatusModel>) -> StatusModel {
    match s {
        Some(st) => st,
        None => empty_status(),
    }
}

/// What projecting an outcome over a previous status yields: a successful
/// apply always reports `Running` and clears any prior reason; a failure
/// always reports `Error` with the failure detail as the reason. The previous
/// status never shows through in either owned field.
pub open spec fn spec_project(previous: StatusModel, outcome: OutcomeModel) -> StatusModel {
    match outcome {
        OutcomeModel::Applied => StatusModel { phase: Some(running_phase()), reason: None },
        OutcomeModel::Failed(d) => StatusModel { phase: Some(error_phase()), reason: Some(d) },
    }
}

/// Projects the outcome of one attempt into the status to write back.
pub fn project(previous: &Option<EdgeDeploymentStatus>, outcome: &ReconcileOutcome) -> (r: EdgeDeploymentStatus)
    ensures
        r@ == spec_project(previous_status(opt_status_model(*previous)), outcome@),
{
    match outcome {
        ReconcileOutcome::Applied => EdgeDeploymentStatus {
            phase: Some("Running".to_owned()),
            reason: None,
        },
        ReconcileOutcome::Failed(d) => EdgeDeploymentStatus {
            phase: Some("Error".to_owned()),
            reason: Some(d.clone()),
        },
    }
}

/// After a successful apply the projected status is `phase = Running` with no
/// reason, whatever the previous status held.
pub proof fn lemma_applied_projects_running(previous: StatusModel)
    ensures
        spec_project(previous, OutcomeModel::Applied).phase == Some(running_phase()),
        spec_project(previous, OutcomeModel::Applied).reason is None,
{
}

/// After a failed apply the projected status is `phase = Error` with the
/// non-empty failure detail as its reason, whatever the previous status held;
/// a subsequent successful apply clears the reason again.
pub proof fn lemma_failed_projects_error_then_applied_clears(previous: StatusModel, detail: Seq<char>)
    requires
        detail.len() > 0,
    ensures
        spec_project(previous, OutcomeModel::Failed(detail)).phase == Some(error_phase()),
        (spec_project(previous, OutcomeModel::Failed(detail)).reason matches Some(r) && r.len() > 0),
        spec_project(previous, OutcomeModel::Failed(detail)).reason == Some(detail),
        spec_project(
            spec_project(previous, OutcomeModel::Failed(detail)),
            OutcomeModel::Applied,
        ).reason is None,
{
}

} // verus!
