[package]
name = "graph_migrator"
version = "0.1.0"
edition = "2021"
publish = false

[dependencies]
chrono = { version = "0.4", features = ["serde"] }
neo4rs = { version = "*", features = ["json"] }
serde = { version = "1", features = ["derive"] }
serde_json = "1"
sha256 = { version = "1", default-features = false }
thiserror = "1"
tracing = "0.1"
