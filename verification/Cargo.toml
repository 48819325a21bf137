[package]
name = "deno_sandbox_poc"
version = "0.1.0"
edition = "2021"
publish = false

[dependencies]
anyhow = "1"
deno_core = "*"
deno_error = "*"
serde_json = "1"
thiserror = "*"
tokio = { version = "1", features = ["rt", "macros"] }
tracing = "0.1"
tracing-subscriber = "0.3"
