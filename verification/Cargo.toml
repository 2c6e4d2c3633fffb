[package]
name = "pod_locality"
version = "0.1.0"
edition = "2021"
publish = false

[dependencies]
anyhow = "1"
clap = { version = "3", features = ["derive"] }
futures = "0.3"
json-patch = "0.2"
k8s-openapi = { version = "0.15", features = ["v1_24"] }
kube = { version = "0.74", default-features = false, features = ["client", "rustls-tls", "runtime", "admission", "jsonpatch"] }
serde_json = "1"
thiserror = "1"
tokio = { version = "1", features = ["macros", "rt-multi-thread", "time"] }
tracing = "0.1"
tracing-subscriber = "0.3"
warp = { version = "0.3", features = ["tls"] }
