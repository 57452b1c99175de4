[package]
name = "agent_runtime"
version = "0.1.0"
edition = "2021"
publish = false

[dependencies]
base64 = "0.13"
serde = { version = "*", features = ["derive"] }
serde_json = "*"
tokio = { version = "*", features = ["rt", "macros", "time"] }
kube = "*"
k8s-openapi = { version = "*", features = ["latest"] }
