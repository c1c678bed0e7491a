[package]
name = "mcpg-operator-api"
version = "0.1.0"
edition = "2021"
publish = false

[dependencies]
chrono = { version = "0.4", features = ["serde"] }
kube = { version = "*", default-features = false, features = ["derive"] }
k8s-openapi = { version = "*", features = ["latest", "schemars"] }
schemars = { version = "1", features = ["chrono04"] }
serde = { version = "1", features = ["derive"] }
serde_json = "1"
