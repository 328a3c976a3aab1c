//! The desired-state builder: a pure, deterministic mapping from an intent's
//! identity and specification to the manifest of the managed workload
//! resource, with validation of the structural constraints the intent must
//! meet before any cluster call is attempted.

use vstd::prelude::*;
use crate::intent::{EdgeDeploymentSpec, IntentSpecModel};

verus! {

/// Why an intent's specification was rejected before any cluster call.
#[derive(Clone, Copy, Debug, PartialEq, Eq)]
pub enum ValidationError {
    /// The intent names no container image.
    EmptyImage,
    /// The intent asks for a negative replica count.
    NegativeReplicas,
}

/// The reason string a rejected intent reports in its status.
pub open spec fn validation_reason(e: ValidationError) -> Seq<char> {
    match e {
        ValidationError::EmptyImage => "image must not be empty"@,
        ValidationError::NegativeReplicas => "replicas must not be negative"@,
    }
}

impl ValidationError {
    /// The human-readable reason for this rejection.
    pub fn reason(&self) -> (r: String)
        ensures
            r@ == validation_reason(*self),
    {
        match self {
            ValidationError::EmptyImage => "image must not be empty".to_owned(),
            ValidationError::NegativeReplicas => "replicas must not be negative".to_owned(),
        }
    }
}

/// Mathematical model of a desired manifest.
pub ghost struct ManifestModel {
    pub name: Seq<char>,
    pub namespace: Seq<char>,
    pub labels: Seq<(Seq<char>, Seq<char>)>,
    pub replicas: int,
    pub container_image: Seq<char>,
    pub node_selector: Option<Seq<(Seq<char>, Seq<char>)>>,
}

/// The desired manifest of the managed workload resource: recomputed on every
/// reconcile attempt, never persisted on its own. Its label set is exactly
/// `{"app": name}`, which also serves as the selector binding the workload's
/// pods to it; the workload runs one container using `container_image`.
#[derive(Clone, Debug, PartialEq, Eq)]
pub struct DesiredManifest {
    pub name: String,
    pub namespace: String,
    pub labels: Vec<(String, String)>,
    pub replicas: i32,
    pub container_image: String,
    pub node_selector: Option<Vec<(String, String)>>,
}

impl View for DesiredManifest {
    type V = ManifestModel;

    open spec fn view(&self) -> ManifestModel {
        ManifestModel {
            name: self.name@,
            namespace: self.namespace@,
            labels: self.labels.deep_view(),
            replicas: self.replicas as int,
            container_image: self.container_image@,
            node_selector: self.node_selector.deep_view(),
        }
    }
}

/// The replica count an intent asks for, with the default of 1 applied when
/// the intent leaves `replicas` unset.
pub open spec fn effective_replicas(replicas: Option<int>) -> int {
    match replicas {
        Some(n) => n,
        None => 1,
    }
}

/// The manifest a valid intent maps to.
pub open spec fn desired_manifest_of(name: Seq<char>, namespace: Seq<char>, s: IntentSpecModel) -> ManifestModel {
    ManifestModel {
        name: name,
        namespace: namespace,
        labels: seq![("app"@, name)],
        replicas: effective_replicas(s.replicas),
        container_image: s.image,
        node_selector: s.node_selector,
    }
}

/// What building the desired state returns: the manifest of a valid intent,
/// or the first violated constraint (the image is checked before the replica
/// count).
pub open spec fn spec_build(name: Seq<char>, namespace: Seq<char>, s: IntentSpecModel) -> Result<
    ManifestModel,
    ValidationError,
> {
    if s.image.len() == 0 {
        Err(ValidationError::EmptyImage)
    } else if effective_replicas(s.replicas) < 0 {
        Err(ValidationError::NegativeReplicas)
    } else {
        Ok(desired_manifest_of(name, namespace, s))
    }
}

/// Copies a list of key/value pairs, preserving order and contents.
fn copy_pairs(pairs: &Vec<(String, String)>) -> (r: Vec<(String, String)>)
    ensures
        r.deep_view() == pairs.deep_view(),
{
    let mut out: Vec<(String, String)> = Vec::new();
    let mut i: usize = 0;
    while i < pairs.len()
        invariant
            i <= pairs.len(),
            out.len() == i,
            forall|j: int| 0 <= j < i ==> out@[j].0@ == pairs@[j].0@ && out@[j].1@ == pairs@[j].1@,
        decreases pairs.len() - i,
    {
        out.push((pairs[i].0.clone(), pairs[i].1.clone()));
        i = i + 1;
    }
    proof {
        assert(out.deep_view() =~= pairs.deep_view());
    }
    out
}

/// Builds the desired manifest for the intent named `name` in `namespace`.
///
/// Pure and total: no I/O, and the result is a function of the arguments
/// alone, so identical inputs always yield identical manifests. An intent
/// whose image is empty or whose replica count is negative is rejected
/// without any cluster call.
pub fn build(name: &String, namespace: &String, spec: &EdgeDeploymentSpec) -> (r: Result<
    DesiredManifest,
    ValidationError,
>)
    ensures
        (match r {
            Ok(m) => spec_build(name@, namespace@, spec@) == Ok::<ManifestModel, ValidationError>(m@),
            Err(e) => spec_build(name@, namespace@, spec@) == Err::<ManifestModel, ValidationError>(e),
        }),
{
    if spec.image.as_str().is_empty() {
        return Err(ValidationError::EmptyImage);
    }
    let replicas: i32 = match spec.replicas {
        Some(n) => n,
        None => crate::intent::default_replicas(),
    };
    if replicas < 0 {
        return Err(ValidationError::NegativeReplicas);
    }
    let mut labels: Vec<(String, String)> = Vec::new();
    labels.push(("app".to_owned(), name.clone()));
    let node_selector: Option<Vec<(String, String)>> = match &spec.node_selector {
        Some(pairs) => Some(copy_pairs(pairs)),
        None => None,
    };
    let m = DesiredManifest {
        name: name.clone(),
        namespace: namespace.clone(),
        labels: labels,
        replicas: replicas,
        container_image: spec.image.clone(),
        node_selector: node_selector,
    };
    proof {
        assert(m@.labels =~= desired_manifest_of(name@, namespace@, spec@).labels);
    }
    Ok(m)
}

/// An intent that names an image but leaves `replicas` unset builds a
/// manifest with the default replica count of 1.
pub proof fn lemma_unset_replicas_defaults_to_one(
    name: Seq<char>,
    namespace: Seq<char>,
    s: IntentSpecModel,
)
    requires
        s.image.len() > 0,
        s.replicas is None,
    ensures
        (spec_build(name, namespace, s) matches Ok(m) && m.replicas == 1),
{
}

/// Building the desired state is deterministic: repeated builds from an
/// identical intent identity and specification yield identical results.
pub proof fn lemma_build_deterministic(
    name: Seq<char>,
    namespace: Seq<char>,
    s: IntentSpecModel,
    r1: Result<ManifestModel, ValidationError>,
    r2: Result<ManifestModel, ValidationError>,
)
    requires
        r1 == spec_build(name, namespace, s),
        r2 == spec_build(name, namespace, s),
    ensures
        r1 == r2,
{
}

} // verus!
