[package]
name = "fastrace_axum"
version = "0.1.0"
edition = "2021"
publish = false

[dependencies]
axum = { version = "0.8", default-features = false, features = ["matched-path"] }
fastrace = "0.7"
opentelemetry-semantic-conventions = "*"
pin-project = "1"
tower-layer = "0.3"
tower-service = "0.3"

[dev-dependencies]
fastrace = { version = "0.7", features = ["enable"] }
