use pod_locality::labels::Labels;

#[test]
fn new_labels_hold_nothing() {
    let labels = Labels::new();
    assert!(labels.get("zone").is_none());
    assert!(labels.get("").is_none());
}

#[test]
fn insert_then_get() {
    let mut labels = Labels::new();
    labels.insert("zone".to_string(), "z1".to_string());
    assert_eq!(labels.get("zone"), Some(&"z1".to_string()));
    assert!(labels.get("region").is_none());
}

#[test]
fn insert_overwrites() {
    let mut labels = Labels::new();
    labels.insert("zone".to_string(), "z1".to_string());
    labels.insert("zone".to_string(), "z2".to_string());
    assert_eq!(labels.get("zone"), Some(&"z2".to_string()));
}

#[test]
fn insert_keeps_other_keys() {
    let mut labels = Labels::new();
    labels.insert("zone".to_string(), "z1".to_string());
    labels.insert("region".to_string(), "r1".to_string());
    assert_eq!(labels.get("zone"), Some(&"z1".to_string()));
    assert_eq!(labels.get("region"), Some(&"r1".to_string()));
}
