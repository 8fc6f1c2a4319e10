[package]
name = "roomlog"
version = "0.1.0"
edition = "2021"
publish = false

[dependencies]
uuid = { version = "=1.27.0", features = ["v4", "serde"] }
chrono = "=0.4.45"
actix-web = "=4.15.0"
actix-rt = "=2.15.0"
async-trait = "=0.1.92"
serde = { version = "=1.0.229", features = ["derive"] }
serde_json = "=1.0.151"
thiserror = "=2.0.21"
tracing = "=0.1.44"
tracing-actix-web = "=0.7.25"
tracing-subscriber = "=0.3.23"
