[package]
name = "bevy_s2n_quic"
version = "0.1.0"
edition = "2021"
publish = false

[dependencies]
aeronet_io = "=0.14.0"
bevy = { version = "=0.16.1", default-features = false, features = ["std", "bevy_log"] }
bytes = "=1.12.1"
futures = "=0.3.34"
s2n-quic = "=1.91.0"
s2n-quic-tls = "=0.91.0"
thiserror = "=2.0.21"
tokio = { version = "=1.54.1", features = ["rt-multi-thread", "sync", "time", "macros"] }
tracing = "=0.1.44"
