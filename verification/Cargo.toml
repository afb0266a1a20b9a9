[package]
name = "dogdata"
version = "0.1.0"
edition = "2021"
publish = false

[dependencies]
http = "=1.5.0"
reqwest = { version = "=0.12.28", default-features = false }
reqwest-middleware = "=0.4.2"
async-trait = "=0.1.92"
tracing = "=0.1.44"
tracing-subscriber = { version = "=0.3.23", features = ["fmt", "json", "env-filter", "registry"] }
tracing-serde = "=0.2.0"
tracing-appender = "=0.2.5"
tracing-opentelemetry = "=0.31.0"
opentelemetry = "=0.30.0"
opentelemetry_sdk = "=0.30.0"
opentelemetry-stdout = "=0.30.0"
opentelemetry-semantic-conventions = "=0.30.0"
opentelemetry-datadog = "=0.18.0"
tracing-opentelemetry-instrumentation-sdk = { version = "=0.29.1", features = ["http"] }
axum-tracing-opentelemetry = "=0.29.0"
datadog-opentelemetry = "0.2"
serde = { version = "=1.0.229", features = ["derive"] }
serde_json = "=1.0.154"
chrono = "=0.4.45"
sqlx = { version = "=0.8.6", default-features = false, features = ["postgres", "mysql"] }
