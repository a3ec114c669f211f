[package]
name = "docsearch"
version = "0.1.0"
edition = "2021"
publish = false

[dependencies]
tantivy = "*"
serde_json = "*"
axum = "*"
tokio = { version = "*", features = ["full"] }

[dev-dependencies]
tempfile = "*"
