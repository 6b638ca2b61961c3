[package]
name = "binarylane_controller"
version = "0.1.0"
edition = "2021"
publish = false

[dependencies]
minijinja = "*"
tonic = { version = "*", default-features = false }
kube = { version = "*", default-features = false, features = ["client", "derive"] }
k8s-openapi = { version = "*", default-features = false, features = ["latest"] }
serde = { version = "1", features = ["derive"] }
serde_json = "1"
schemars = "*"
anyhow = "1"
tracing = "0.1"
thiserror = "*"
