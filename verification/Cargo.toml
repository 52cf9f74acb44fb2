[package]
name = "mcp_ext_authz"
version = "0.1.0"
edition = "2021"
publish = false

[dependencies]
http = "=1.5.0"
bytes = "=1.12.1"
prost-types = "=0.14.4"
serde = { version = "=1.0.229", features = ["derive"] }
serde_json = "=1.0.154"
thiserror = "2"
tracing = "0.1"
tokio = { version = "1", features = ["net", "rt", "sync"] }
axum = "0.8"
rmcp = { version = "0.14", features = ["server", "client", "macros", "schemars", "transport-streamable-http-server", "transport-streamable-http-client-reqwest"] }
