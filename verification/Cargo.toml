[package]
name = "sas_operator"
version = "0.1.0"
edition = "2021"
publish = false

[dependencies]
time = { version = "=0.3.55", features = ["formatting", "parsing"] }
tokio-retry = "=0.3.2"
kube = { version = "=3.1.0", features = ["runtime", "derive", "client"] }
k8s-openapi = { version = "=0.27.1", features = ["latest"] }
tokio = { version = "1", features = ["macros", "rt-multi-thread"] }
futures = "0.3"
serde = { version = "1", features = ["derive"] }
serde_json = "1"
serde_yaml = "0.9"
schemars = "=1.2.2"
tracing = "0.1"
tracing-subscriber = { version = "0.3", features = ["env-filter"] }
azure_identity = "=0.21.0"
azure_storage = "=0.21.0"
azure_storage_blobs = "=0.21.0"
