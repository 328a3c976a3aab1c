//! The reconcile engine: the decisions of one reconcile attempt for one
//! intent object, split around the attempt's single cluster interaction.
//!
//! The external driver runs the protocol in two steps. [`plan_reconcile`]
//! turns the intent into either a manifest to hand to the cluster gateway or,
//! when validation fails, a finished report with no cluster call at all.
//! After the gateway call the driver hands its verdict to
//! [`conclude_reconcile`], which produces the outcome, the status to write
//! back, and the delay until the next attempt. Writing the status is
//! best-effort: a failure there is logged by the driver and never overturns
//! the outcome already decided.

use vstd::prelude::*;
use crate::intent::{opt_status_model, EdgeDeploymentStatus, EdgeIntent, IntentModel, StatusModel};
use crate::manifest::{
    build, spec_build, validation_reason, DesiredManifest, ManifestModel, ValidationError,
};
use crate::requeue::{decide, RETRY_INTERVAL_SECS, STEADY_INTERVAL_SECS};
use crate::status::{
    previous_status, project, spec_project, OutcomeModel, ReconcileOutcome,
};

verus! {

/// The namespace used when the intent carries none. Part of the deployment
/// contract: every manifest of a namespace-less intent converges there.
pub open spec fn default_namespace() -> Seq<char> {
    "default"@
}

/// The namespace a reconcile attempt works in: the intent's own, or the
/// default namespace when the intent carries none.
pub open spec fn resolved_namespace(ns: Option<Seq<char>>) -> Seq<char> {
    match ns {
        Some(n) => n,
        None => default_namespace(),
    }
}

/// The model of an optional namespace, `None` kept as `None`.
pub open spec fn opt_string_model(s: Option<String>) -> Option<Seq<char>> {
    match s {
        Some(n) => Some(n@),
        None => None,
    }
}

/// Resolves the namespace the attempt works in.
pub fn resolve_namespace(ns: &Option<String>) -> (r: String)
    ensures
        r@ == resolved_namespace(opt_string_model(*ns)),
{
    match ns {
        Some(n) => n.clone(),
        None => "default".to_owned(),
    }
}

/// Mathematical model of one reconcile attempt's report.
pub ghost struct ReportModel {
    pub outcome: OutcomeModel,
    pub status: StatusModel,
    pub requeue_after_secs: u64,
}

/// What one reconcile attempt hands back to the external driver: the
/// attempt's outcome, the status to write on the intent resource, and the
/// delay until the next attempt for the same intent.
#[derive(Clone, Debug, PartialEq, Eq)]
pub struct ReconcileReport {
    pub outcome: ReconcileOutcome,
    pub status: EdgeDeploymentStatus,
    pub requeue_after_secs: u64,
}

impl View for ReconcileReport {
    type V = ReportModel;

    open spec fn view(&self) -> ReportModel {
        ReportModel {
            outcome: self.outcome@,
            status: self.status@,
            requeue_after_secs: self.requeue_after_secs,
        }
    }
}

/// Mathematical model of a reconcile plan.
pub ghost enum PlanModel {
    Apply(ManifestModel),
    Abort(ReportModel),
}

/// What the first half of an attempt decides: apply this manifest through
/// the gateway, or stop here with a finished report because the intent
/// failed validation.
#[derive(Clone, Debug, PartialEq, Eq)]
pub enum ReconcilePlan {
    Apply(DesiredManifest),
    Abort(ReconcileReport),
}

impl View for ReconcilePlan {
    type V = PlanModel;

    open spec fn view(&self) -> PlanModel {
        match self {
            ReconcilePlan::Apply(m) => PlanModel::Apply(m@),
            ReconcilePlan::Abort(r) => PlanModel::Abort(r@),
        }
    }
}

/// The report a rejected intent is finished with: a failed outcome carrying
/// the validation reason, the status projected from it, and the retry
/// interval.
pub open spec fn rejection_report(intent: IntentModel, e: ValidationError) -> ReportModel {
    ReportModel {
        outcome: OutcomeModel::Failed(validation_reason(e)),
        status: spec_project(
            previous_status(intent.status),
            OutcomeModel::Failed(validation_reason(e)),
        ),
        requeue_after_secs: RETRY_INTERVAL_SECS,
    }
}

/// The plan an intent maps to: the desired manifest, built in the intent's
/// resolved namespace, when the intent is valid; otherwise the finished
/// rejection report.
pub open spec fn spec_plan(intent: IntentModel) -> PlanModel {
    match spec_build(intent.name, resolved_namespace(intent.namespace), intent.spec) {
        Ok(m) => PlanModel::Apply(m),
        Err(e) => PlanModel::Abort(rejection_report(intent, e)),
    }
}

/// Decides the first half of a reconcile attempt.
///
/// A valid intent yields the manifest the gateway must converge the managed
/// resource to; an invalid one short-circuits to a finished report, so no
/// cluster call is made for it.
pub fn plan_reconcile(intent: &EdgeIntent) -> (p: ReconcilePlan)
    ensures
        p@ == spec_plan(intent@),
{
    let namespace = resolve_namespace(&intent.namespace);
    match build(&intent.name, &namespace, &intent.spec) {
        Ok(m) => ReconcilePlan::Apply(m),
        Err(e) => {
            let outcome = ReconcileOutcome::Failed(e.reason());
            let status = project(&intent.status, &outcome);
            let requeue_after_secs = decide(&outcome);
            ReconcilePlan::Abort(ReconcileReport { outcome, status, requeue_after_secs })
        },
    }
}

/// The model of a gateway verdict, `Err` carrying the failure detail.
pub open spec fn verdict_model(applied: Result<(), String>) -> Result<(), Seq<char>> {
    match applied {
        Ok(u) => Ok(u),
        Err(d) => Err(d@),
    }
}

/// The report an attempt is concluded with once the gateway has spoken: a
/// successful apply yields `Applied`, a `Running` status and the steady-state
/// interval; a failed one yields `Failed` with the gateway's detail, an
/// `Error` status carrying that detail, and the retry interval.
pub open spec fn spec_conclude(previous: Option<StatusModel>, applied: Result<(), Seq<char>>) -> ReportModel {
    match applied {
        Ok(_) => ReportModel {
            outcome: OutcomeModel::Applied,
            status: spec_project(previous_status(previous), OutcomeModel::Applied),
            requeue_after_secs: STEADY_INTERVAL_SECS,
        },
        Err(d) => ReportModel {
            outcome: OutcomeModel::Failed(d),
            status: spec_project(previous_status(previous), OutcomeModel::Failed(d)),
            requeue_after_secs: RETRY_INTERVAL_SECS,
        },
    }
}

/// Concludes a reconcile attempt from the gateway's verdict on the apply
/// call. The verdict's failure detail is preserved, not swallowed: it becomes
/// both the outcome's detail and the status reason.
pub fn conclude_reconcile(previous: &Option<EdgeDeploymentStatus>, applied: Result<(), String>) -> (r: ReconcileReport)
    ensures
        r@ == spec_conclude(opt_status_model(*previous), verdict_model(applied)),
{
    let outcome = match applied {
        Ok(_) => ReconcileOutcome::Applied,
        Err(d) => ReconcileOutcome::Failed(d),
    };
    let status = project(previous, &outcome);
    let requeue_after_secs = decide(&outcome);
    ReconcileReport { outcome, status, requeue_after_secs }
}

/// An intent that fails validation never reaches the cluster: its plan is a
/// finished report, not a manifest to apply, and the report retries at the
/// short interval with the validation reason as status reason.
pub proof fn lemma_invalid_intent_never_applies(intent: IntentModel, e: ValidationError)
    requires
        spec_build(intent.name, resolved_namespace(intent.namespace), intent.spec) == Err::<
            ManifestModel,
            ValidationError,
        >(e),
    ensures
        spec_plan(intent) is Abort,
        spec_plan(intent) == PlanModel::Abort(rejection_report(intent, e)),
        rejection_report(intent, e).requeue_after_secs == RETRY_INTERVAL_SECS,
{
}

/// An intent asking for a negative replica count fails validation, so its
/// plan never carries a manifest to apply: no gateway call occurs for it.
pub proof fn lemma_negative_replicas_never_applies(intent: IntentModel)
    requires
        (intent.spec.replicas matches Some(n) && n < 0),
    ensures
        spec_build(intent.name, resolved_namespace(intent.namespace), intent.spec) is Err,
        spec_plan(intent) is Abort,
{
}

/// Model of the controller-owned fields of the managed resource: absent
/// before the first apply, afterwards exactly the manifest last applied.
/// Convergence is a server-side apply of these fields alone; fields owned by
/// other actors lie outside the model and are left untouched.
pub open spec fn spec_apply_manifest(state: Option<ManifestModel>, desired: ManifestModel) -> Option<ManifestModel> {
    Some(desired)
}

/// Applying the same desired manifest twice in succession leaves the managed
/// resource in the same observable state as applying it once.
pub proof fn lemma_apply_idempotent(state: Option<ManifestModel>, desired: ManifestModel)
    ensures
        spec_apply_manifest(spec_apply_manifest(state, desired), desired) == spec_apply_manifest(
            state,
            desired,
        ),
{
}

} // verus!
