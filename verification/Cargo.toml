[package]
name = "span_profiler"
version = "0.1.0"
edition = "2021"
publish = false

[dependencies]
tracing-core = "=0.1.36"
rustc-hash = "=1.1.0"
sp-tracing = "=2.0.0"
log = "=0.4.34"
parking_lot = "=0.11.2"
serde = "=1.0.229"
erased-serde = "=0.3.31"
slog = { version = "=2.8.2", features = ["nested-values"] }
sc-telemetry = "2.0.0"
