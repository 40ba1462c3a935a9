[package]
name = "koprs"
version = "0.1.0"
edition = "2021"
publish = false

[dependencies]
bytes = "1"
futures = "0.3"
http-body-util = "0.1"
hyper = { version = "1", features = ["http1", "server"] }
hyper-util = { version = "0.1", features = ["tokio"] }
k8s-openapi = { version = "0.28.0", features = ["v1_36"] }
kube = { version = "4.2.0", default-features = false, features = ["client"] }
kube-runtime = "4.2.0"
prometheus = { version = "0.14", default-features = false }
serde = "1"
tokio = { version = "1", features = ["io-util", "macros", "net", "rt", "rt-multi-thread", "signal", "sync", "time"] }
tracing = "0.1"

[dev-dependencies]
http = "1"
serde_json = "1"
tower-test = "0.4"
