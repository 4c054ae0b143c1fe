[package]
name = "openstack_exporter"
version = "0.1.0"
edition = "2021"
publish = false

[dependencies]
axum = "0.8"
chrono = "0.4"
config = { version = "0.15", default-features = false }
diesel = { version = "2.2", default-features = false, features = ["mysql", "r2d2", "chrono"] }
prometheus = { version = "0.14", default-features = false }
r2d2 = "0.8"
serde = { version = "1", features = ["derive"] }
tokio = { version = "1", features = ["macros", "rt-multi-thread", "signal", "net"] }
tracing = "0.1"
tracing-subscriber = "0.3"
