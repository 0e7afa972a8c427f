[package]
name = "flowfabric"
version = "0.1.0"
edition = "2021"
publish = false

[dependencies]
async-trait = "0.1"
ferriskey = "*"
ff-core = "*"
futures = "0.3"
governor = "*"
reqwest = { version = "0.12", default-features = false, features = ["json"] }
serde = { version = "1", features = ["derive"] }
serde_json = "1"
subtle = "2"
thiserror = "2"
tokio = { version = "1", features = ["macros", "rt", "sync", "time"] }
tracing = "0.1"
