[package]
name = "kunobi-ha"
version = "0.4.1"
edition = "2021"
publish = false

[dependencies]
chrono = "0.4"
k8s-openapi = { version = "0.27", features = ["v1_31"] }
kube = "3"
thiserror = "2"
tokio = { version = "1", features = ["macros", "rt", "signal", "sync", "time"] }
tracing = "0.1"
uuid = { version = "1", features = ["v4"] }
