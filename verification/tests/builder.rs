use edge_operator::intent::{default_replicas, EdgeDeploymentSpec};
use edge_operator::manifest::{build, DesiredManifest, ValidationError};

fn spec_with(image: &str, replicas: Option<i32>) -> EdgeDeploymentSpec {
    EdgeDeploymentSpec {
        image: image.to_string(),
        replicas,
        max_latency_ms: None,
        min_bandwidth_mbps: None,
        node_selector: None,
    }
}

#[test]
fn default_replicas_is_one() {
    assert_eq!(default_replicas(), 1);
}

#[test]
fn build_is_deterministic() {
    let name = "web".to_string();
    let ns = "edge".to_string();
    let spec = spec_with("app:v1", Some(3));
    let first: Result<DesiredManifest, ValidationError> = build(&name, &ns, &spec);
    let second: Result<DesiredManifest, ValidationError> = build(&name, &ns, &spec);
    assert_eq!(first, second);
}

#[test]
fn scenario_a_full_manifest() {
    let name = "web".to_string();
    let ns = "edge".to_string();
    let spec = spec_with("app:v1", Some(3));
    let m = build(&name, &ns, &spec).expect("valid intent must build");
    assert_eq!(m.name, "web");
    assert_eq!(m.namespace, "edge");
    assert_eq!(m.labels, vec![("app".to_string(), "web".to_string())]);
    assert_eq!(m.replicas, 3);
    assert_eq!(m.container_image, "app:v1");
    assert_eq!(m.node_selector, None);
}

#[test]
fn scenario_b_unset_replicas_defaults_to_one() {
    let name = "web".to_string();
    let ns = "edge".to_string();
    let spec = spec_with("app:v1", None);
    let m = build(&name, &ns, &spec).expect("valid intent must build");
    assert_eq!(m.replicas, 1);
}

#[test]
fn negative_replicas_rejected() {
    let name = "web".to_string();
    let ns = "edge".to_string();
    let spec = spec_with("app:v1", Some(-1));
    let r = build(&name, &ns, &spec);
    assert_eq!(r, Err(ValidationError::NegativeReplicas));
}

#[test]
fn empty_image_rejected() {
    let name = "web".to_string();
    let ns = "edge".to_string();
    let spec = spec_with("", Some(2));
    let r = build(&name, &ns, &spec);
    assert_eq!(r, Err(ValidationError::EmptyImage));
}

#[test]
fn empty_image_reported_before_negative_replicas() {
    let name = "web".to_string();
    let ns = "edge".to_string();
    let spec = spec_with("", Some(-1));
    let r = build(&name, &ns, &spec);
    assert_eq!(r, Err(ValidationError::EmptyImage));
}

#[test]
fn validation_reasons_are_non_empty() {
    assert_eq!(ValidationError::EmptyImage.reason(), "image must not be empty");
    assert_eq!(
        ValidationError::NegativeReplicas.reason(),
        "replicas must not be negative"
    );
}

#[test]
fn node_selector_copied_verbatim() {
    let name = "web".to_string();
    let ns = "edge".to_string();
    let selector = vec![
        ("zone".to_string(), "edge-west".to_string()),
        ("tier".to_string(), "metal".to_string()),
    ];
    let spec = EdgeDeploymentSpec {
        image: "app:v1".to_string(),
        replicas: Some(2),
        max_latency_ms: Some(20),
        min_bandwidth_mbps: Some(100),
        node_selector: Some(selector.clone()),
    };
    let m = build(&name, &ns, &spec).expect("valid intent must build");
    assert_eq!(m.node_selector, Some(selector));
}

#[test]
fn advisory_hints_do_not_change_the_manifest() {
    let name = "web".to_string();
    let ns = "edge".to_string();
    let plain = spec_with("app:v1", Some(2));
    let hinted = EdgeDeploymentSpec {
        max_latency_ms: Some(5),
        min_bandwidth_mbps: Some(500),
        ..plain.clone()
    };
    assert_eq!(build(&name, &ns, &plain), build(&name, &ns, &hinted));
}
