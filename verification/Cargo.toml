[package]
name = "quic_exchange"
version = "0.1.0"
edition = "2021"
publish = false

[dependencies]
async-signal = "0.2"
axum = { version = "0.8", default-features = false, features = ["json"] }
base64 = "0.22"
chrono = { version = "0.4", default-features = false, features = ["clock", "std"] }
clap = { version = "4", features = ["derive", "env"] }
futures = "0.3"
http-body-util = "0.1"
hyper = { version = "1", features = ["client", "http1", "server"] }
hyper-util = { version = "0.1", features = ["tokio"] }
pem = "3"
quinn = { version = "0.11", default-features = false, features = ["log", "runtime-smol", "rustls-ring"] }
rcgen = "0.13"
rustls = { version = "0.23", default-features = false, features = ["ring", "std"] }
serde = { version = "1", features = ["derive"] }
serde_json = "1"
smol = "2"
thiserror = "2"
tokio = { version = "1", features = ["io-util"] }
tower = "0.5"
tower-http = { version = "0.6", features = ["trace"] }
tracing = "0.1"
