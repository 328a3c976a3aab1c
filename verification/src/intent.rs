//! The user-authored intent resource: its specification fields, its status
//! sub-resource, and the identity under which the controller sees one object.

use vstd::prelude::*;

verus! {

/// The integer value of an optional bounded count, `None` kept as `None`.
pub open spec fn opt_int(v: Option<i32>) -> Option<int> {
    match v {
        Some(n) => Some(n as int),
        None => None,
    }
}

/// Mathematical model of an intent's specification fields.
pub ghost struct IntentSpecModel {
    pub image: Seq<char>,
    pub replicas: Option<int>,
    pub max_latency_ms: Option<int>,
    pub min_bandwidth_mbps: Option<int>,
    pub node_selector: Option<Seq<(Seq<char>, Seq<char>)>>,
}

/// User intent for one workload, immutable within a reconcile attempt.
///
/// `replicas` left unset means the default of [`default_replicas`] applies.
/// `max_latency_ms` and `min_bandwidth_mbps` are advisory placement hints,
/// carried through the data model but not yet consulted when building the
/// desired manifest.
#[derive(Clone, Debug, PartialEq, Eq)]
pub struct EdgeDeploymentSpec {
    pub image: String,
    pub replicas: Option<i32>,
    pub max_latency_ms: Option<i32>,
    pub min_bandwidth_mbps: Option<i32>,
    pub node_selector: Option<Vec<(String, String)>>,
}

impl View for EdgeDeploymentSpec {
    type V = IntentSpecModel;

    open spec fn view(&self) -> IntentSpecModel {
        IntentSpecModel {
            image: self.image@,
            replicas: opt_int(self.replicas),
            max_latency_ms: opt_int(self.max_latency_ms),
            min_bandwidth_mbps: opt_int(self.min_bandwidth_mbps),
            node_selector: self.node_selector.deep_view(),
        }
    }
}

/// Mathematical model of an intent's status sub-resource.
pub ghost struct StatusModel {
    pub phase: Option<Seq<char>>,
    pub reason: Option<Seq<char>>,
}

/// Status of one intent, owned exclusively by the controller.
///
/// `phase` is unset until the first reconcile attempt completes; afterwards it
/// is `"Running"` or `"Error"`. `reason` is populated only while the phase is
/// `"Error"` and is cleared by the next successful apply.
#[derive(Clone, Debug, PartialEq, Eq)]
pub struct EdgeDeploymentStatus {
    pub phase: Option<String>,
    pub reason: Option<String>,
}

impl View for EdgeDeploymentStatus {
    type V = StatusModel;

    open spec fn view(&self) -> StatusModel {
        StatusModel { phase: self.phase.deep_view(), reason: self.reason.deep_view() }
    }
}

/// The model of an optional status, `None` kept as `None`.
pub open spec fn opt_status_model(s: Option<EdgeDeploymentStatus>) -> Option<StatusModel> {
    match s {
        Some(st) => Some(st@),
        None => None,
    }
}

/// Mathematical model of one intent object as a reconcile attempt sees it.
pub ghost struct IntentModel {
    pub name: Seq<char>,
    pub namespace: Option<Seq<char>>,
    pub spec: IntentSpecModel,
    pub status: Option<StatusModel>,
}

/// One intent object as handed to a reconcile attempt: its identity (name and
/// optional namespace), its specification, and its previously written status.
#[derive(Clone, Debug, PartialEq, Eq)]
pub struct EdgeIntent {
    pub name: String,
    pub namespace: Option<String>,
    pub spec: EdgeDeploymentSpec,
    pub status: Option<EdgeDeploymentStatus>,
}

impl View for EdgeIntent {
    type V = IntentModel;

    open spec fn view(&self) -> IntentModel {
        IntentModel {
            name: self.name@,
            namespace: self.namespace.deep_view(),
            spec: self.spec@,
            status: opt_status_model(self.status),
        }
    }
}

/// The replica count that applies when an intent leaves `replicas` unset.
pub fn default_replicas() -> (r: i32)
    ensures
        r == 1,
{
    1
}

} // verus!
