[package]
name = "running_supervisor"
version = "0.1.0"
edition = "2021"
publish = false

[dependencies]
anyhow = "1"
async-trait = "0.1"
chrono = "0.4"
k8s-openapi = { version = "=0.9.0", default-features = false, features = ["v1_17"] }
kube = { version = "=0.40.0", default-features = false, features = ["native-tls"] }
kubelet = { version = "=0.5.0", default-features = false, features = ["kube-native-tls"] }
log = "0.4"
serde_json = "1"
tokio = { version = "0.2", features = ["sync"] }
