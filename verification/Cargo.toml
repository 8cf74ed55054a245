[package]
name = "azure_dispatch"
version = "0.1.0"
edition = "2021"
publish = false

[dependencies]
url = "*"
reqwest = { version = "*", default-features = false, features = ["json"] }
tokio = { version = "*", features = ["time"] }
serde = { version = "*", features = ["derive"] }
serde_json = "*"
tracing = "*"
anyhow = "*"
async-trait = "*"
