use pod_locality::labels::Labels;
use pod_locality::object::{Node, Pod, PodSpec};
use pod_locality::webhook::pod::{
    mutate, mutate_handler, AdmissionRequest, AdmissionResponse, HookEvent, HookStep,
};

fn labels_of(pairs: &[(&str, &str)]) -> Labels {
    let mut labels = Labels::new();
    for (key, value) in pairs {
        labels.insert(key.to_string(), value.to_string());
    }
    labels
}

fn pod_on(node_name: Option<&str>, pairs: &[(&str, &str)]) -> Pod {
    Pod {
        namespace: Some("default".to_string()),
        name: Some("a".to_string()),
        labels: labels_of(pairs),
        spec: Some(PodSpec { node_name: node_name.map(|n| n.to_string()) }),
    }
}

fn request(pod: Option<Pod>) -> Result<AdmissionRequest, String> {
    Ok(AdmissionRequest { uid: "uid-1".to_string(), object: pod })
}

fn node_with(pairs: &[(&str, &str)]) -> Node {
    Node { labels: labels_of(pairs) }
}

fn allowed(uid: &str, patch: Option<&str>) -> AdmissionResponse {
    AdmissionResponse {
        uid: uid.to_string(),
        allowed: true,
        reason: None,
        patch: patch.map(|p| p.as_bytes().to_vec()),
    }
}

fn respond(step: HookStep) -> AdmissionResponse {
    match step {
        HookStep::Respond(res) => res,
        HookStep::GetNode { node_name } => panic!("asked for node {}", node_name),
    }
}

#[test]
fn hook_adds_the_zone() {
    let body = request(Some(pod_on(Some("n1"), &[])));
    match mutate_handler(&body, &HookEvent::Received) {
        HookStep::GetNode { node_name } => assert_eq!(node_name, "n1"),
        HookStep::Respond(_) => panic!("no node was looked up"),
    }
    let node = node_with(&[("topology.kubernetes.io/zone", "z1")]);
    let res = respond(mutate_handler(&body, &HookEvent::NodeFetched(Ok(node))));
    assert_eq!(
        res,
        allowed(
            "uid-1",
            Some("[{\"op\":\"add\",\"path\":\"/metadata/labels/zone\",\"value\":\"z1\"}]")
        )
    );
}

#[test]
fn hook_leaves_a_labelled_pod_alone() {
    let body = request(Some(pod_on(Some("n1"), &[("zone", "z1")])));
    let node = node_with(&[("topology.kubernetes.io/zone", "z1")]);
    let res = respond(mutate_handler(&body, &HookEvent::NodeFetched(Ok(node))));
    assert_eq!(res, allowed("uid-1", None));
}

#[test]
fn hook_refuses_an_unreadable_envelope() {
    let body: Result<AdmissionRequest, String> = Err("missing field `request`".to_string());
    let res = respond(mutate_handler(&body, &HookEvent::Received));
    assert!(!res.allowed);
    assert_eq!(res.reason, Some("missing field `request`".to_string()));
    assert_eq!(res.patch, None);
    assert_eq!(res.uid, "");
}

#[test]
fn hook_refuses_an_envelope_without_request() {
    let text = "{\"apiVersion\":\"admission.k8s.io/v1\",\"kind\":\"AdmissionReview\"}";
    let review: kube::core::admission::AdmissionReview<k8s_openapi::api::core::v1::Pod> =
        serde_json::from_str(text).unwrap();
    let converted: Result<
        kube::core::admission::AdmissionRequest<k8s_openapi::api::core::v1::Pod>,
        _,
    > = review.try_into();
    let body: Result<AdmissionRequest, String> = match converted {
        Ok(req) => Ok(AdmissionRequest { uid: req.uid, object: None }),
        Err(err) => Err(err.to_string()),
    };
    let res = respond(mutate_handler(&body, &HookEvent::Received));
    assert!(!res.allowed);
    assert!(!res.reason.clone().unwrap().is_empty());
    assert_eq!(
        res.reason,
        Some("failed to convert AdmissionReview into AdmissionRequest".to_string())
    );
    assert_eq!(res.patch, None);
}

#[test]
fn hook_refuses_an_unreadable_envelope_whatever_the_event() {
    let body: Result<AdmissionRequest, String> = Err("bad".to_string());
    let node = node_with(&[("topology.kubernetes.io/zone", "z1")]);
    let res = respond(mutate_handler(&body, &HookEvent::NodeFetched(Ok(node))));
    assert_eq!(res, AdmissionResponse::invalid("bad".to_string()));
}

#[test]
fn hook_allows_a_request_without_pod() {
    let res = respond(mutate_handler(&request(None), &HookEvent::Received));
    assert_eq!(res, allowed("uid-1", None));
}

#[test]
fn hook_allows_a_pod_without_spec() {
    let pod = Pod { namespace: None, name: None, labels: Labels::new(), spec: None };
    let res = respond(mutate_handler(&request(Some(pod)), &HookEvent::Received));
    assert_eq!(res, allowed("uid-1", None));
}

#[test]
fn hook_allows_a_pod_without_node_and_looks_nothing_up() {
    let body = request(Some(pod_on(None, &[])));
    let res = respond(mutate_handler(&body, &HookEvent::Received));
    assert_eq!(res, allowed("uid-1", None));
    let node = node_with(&[("topology.kubernetes.io/zone", "z1")]);
    let res = respond(mutate_handler(&body, &HookEvent::NodeFetched(Ok(node))));
    assert_eq!(res, allowed("uid-1", None));
}

#[test]
fn hook_swallows_a_failed_lookup() {
    let body = request(Some(pod_on(Some("n1"), &[])));
    let event = HookEvent::NodeFetched(Err("connection refused".to_string()));
    let res = respond(mutate_handler(&body, &event));
    assert_eq!(res, allowed("uid-1", None));
}

#[test]
fn hook_allows_a_pod_on_a_node_without_topology() {
    let body = request(Some(pod_on(Some("n1"), &[])));
    let node = node_with(&[("kubernetes.io/hostname", "n1")]);
    let res = respond(mutate_handler(&body, &HookEvent::NodeFetched(Ok(node))));
    assert_eq!(res, allowed("uid-1", None));
}

#[test]
fn hook_patches_in_fixed_order() {
    let body = request(Some(pod_on(Some("n1"), &[("zone", "old")])));
    let node = node_with(&[
        ("topology.kubernetes.io/subzone", "s1"),
        ("topology.kubernetes.io/zone", "z1"),
        ("topology.kubernetes.io/region", "r1"),
    ]);
    let res = respond(mutate_handler(&body, &HookEvent::NodeFetched(Ok(node))));
    assert_eq!(
        res,
        allowed(
            "uid-1",
            Some(
                "[{\"op\":\"add\",\"path\":\"/metadata/labels/region\",\"value\":\"r1\"},\
                 {\"op\":\"replace\",\"path\":\"/metadata/labels/zone\",\"value\":\"z1\"},\
                 {\"op\":\"add\",\"path\":\"/metadata/labels/subzone\",\"value\":\"s1\"}]"
            )
        )
    );
}

#[test]
fn hook_escapes_values_as_json() {
    let body = request(Some(pod_on(Some("n1"), &[])));
    let node = node_with(&[("topology.kubernetes.io/zone", "a\"b")]);
    let res = respond(mutate_handler(&body, &HookEvent::NodeFetched(Ok(node))));
    assert_eq!(
        res.patch,
        Some(
            "[{\"op\":\"add\",\"path\":\"/metadata/labels/zone\",\"value\":\"a\\\"b\"}]"
                .as_bytes()
                .to_vec()
        )
    );
}

#[test]
fn mutate_attaches_the_patch() {
    let res = AdmissionResponse::from_request(&AdmissionRequest {
        uid: "u".to_string(),
        object: None,
    });
    let pod = pod_on(Some("n1"), &[("region", "r0")]);
    let node = node_with(&[("topology.kubernetes.io/region", "r1")]);
    assert_eq!(
        mutate(res, &pod, &node),
        allowed(
            "u",
            Some("[{\"op\":\"replace\",\"path\":\"/metadata/labels/region\",\"value\":\"r1\"}]")
        )
    );
}

#[test]
fn mutate_leaves_the_response_alone_without_diff() {
    let res = AdmissionResponse::invalid("why".to_string());
    let pod = pod_on(Some("n1"), &[("region", "r1")]);
    let node = node_with(&[("topology.kubernetes.io/region", "r1")]);
    assert_eq!(mutate(res.clone(), &pod, &node), res);
}

#[test]
fn invalid_response() {
    assert_eq!(
        AdmissionResponse::invalid("why".to_string()),
        AdmissionResponse {
            uid: String::new(),
            allowed: false,
            reason: Some("why".to_string()),
            patch: None,
        }
    );
}

#[test]
fn response_from_request_allows() {
    let req = AdmissionRequest { uid: "abc".to_string(), object: None };
    assert_eq!(AdmissionResponse::from_request(&req), allowed("abc", None));
}

#[test]
fn with_encoded_patch_attaches_bytes() {
    let res = allowed("abc", None).with_encoded_patch(Some(vec![91, 93]));
    assert_eq!(res, allowed("abc", Some("[]")));
}

#[test]
fn with_encoded_patch_replaces_the_patch() {
    let res = allowed("abc", Some("[1]")).with_encoded_patch(Some(vec![91, 93]));
    assert_eq!(res, allowed("abc", Some("[]")));
}

#[test]
fn with_encoded_patch_without_bytes_leaves_no_patch() {
    let res = allowed("abc", Some("[]")).with_encoded_patch(None);
    assert_eq!(res, allowed("abc", None));
    let res = AdmissionResponse::invalid("why".to_string()).with_encoded_patch(None);
    assert_eq!(res, AdmissionResponse::invalid("why".to_string()));
}

#[test]
fn mutate_drops_a_carried_patch_when_in_sync() {
    let stale = "[{\"op\":\"add\",\"path\":\"/metadata/labels/other\",\"value\":\"x\"}]";
    let pod = pod_on(Some("n1"), &[("zone", "z1")]);
    let node = node_with(&[("topology.kubernetes.io/zone", "z1")]);
    assert_eq!(mutate(allowed("u", Some(stale)), &pod, &node), allowed("u", None));
}

#[test]
fn mutate_drops_a_carried_patch_without_topology() {
    let pod = pod_on(Some("n1"), &[("zone", "z1"), ("region", "r1")]);
    let node = node_with(&[("kubernetes.io/hostname", "n1")]);
    assert_eq!(mutate(allowed("u", Some("[]")), &pod, &node), allowed("u", None));
}

#[test]
fn mutate_replaces_a_carried_patch() {
    let stale = "[{\"op\":\"add\",\"path\":\"/metadata/labels/other\",\"value\":\"x\"}]";
    let pod = pod_on(Some("n1"), &[]);
    let node = node_with(&[("topology.kubernetes.io/subzone", "s1")]);
    assert_eq!(
        mutate(allowed("u", Some(stale)), &pod, &node),
        allowed(
            "u",
            Some("[{\"op\":\"add\",\"path\":\"/metadata/labels/subzone\",\"value\":\"s1\"}]")
        )
    );
}

#[test]
fn mutate_twice_gives_no_second_patch() {
    let mut pod = pod_on(Some("n1"), &[("zone", "old")]);
    let node = node_with(&[
        ("topology.kubernetes.io/region", "r1"),
        ("topology.kubernetes.io/zone", "z1"),
    ]);
    let first = mutate(allowed("u", None), &pod, &node);
    assert!(first.patch.is_some());
    let ops = pod_locality::diff::label_patch(&pod, &node);
    pod_locality::diff::apply_patch(&mut pod.labels, &ops);
    assert_eq!(mutate(first, &pod, &node), allowed("u", None));
}

#[test]
fn mutate_keeps_a_refusal_refused() {
    let mut res = AdmissionResponse::invalid("why".to_string());
    res.patch = Some(vec![91, 93]);
    let pod = pod_on(Some("n1"), &[]);
    let node = node_with(&[("topology.kubernetes.io/zone", "z1")]);
    let out = mutate(res, &pod, &node);
    assert!(!out.allowed);
    assert_eq!(out.reason, Some("why".to_string()));
    assert_eq!(out.uid, "");
    assert_eq!(
        out.patch,
        Some(
            "[{\"op\":\"add\",\"path\":\"/metadata/labels/zone\",\"value\":\"z1\"}]"
                .as_bytes()
                .to_vec()
        )
    );
}
