[package]
name = "kakigoori-worker"
version = "0.1.0"
edition = "2021"
publish = false

[dependencies]
base64 = "=0.22.1"
serde_json = "=1.0.154"
uuid = { version = "=1.29.0", features = ["v4"] }
lapin = { version = "=4.12.3", default-features = false, features = ["tokio"] }
tokio = { version = "=1.54.1", features = ["rt-multi-thread", "macros"] }
futures-lite = "=2.6.1"
