use pod_locality::labels::Labels;
use pod_locality::object::{Pod, PodSpec};

fn pod(spec: Option<PodSpec>) -> Pod {
    Pod { namespace: None, name: None, labels: Labels::new(), spec }
}

#[test]
fn node_name_of_scheduled_pod() {
    let p = pod(Some(PodSpec { node_name: Some("n1".to_string()) }));
    assert_eq!(p.node_name(), Some(&"n1".to_string()));
}

#[test]
fn node_name_of_unscheduled_pod() {
    assert_eq!(pod(Some(PodSpec { node_name: None })).node_name(), None);
}

#[test]
fn node_name_of_pod_without_spec() {
    assert_eq!(pod(None).node_name(), None);
}
