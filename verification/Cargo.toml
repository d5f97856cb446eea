[package]
name = "imgproxy"
version = "0.1.0"
edition = "2021"
publish = false

[dependencies]
sha2 = "=0.11.0"
hex = "=0.4.3"
base64 = "=0.23.1"
chrono = "=0.4.45"
reqwest = { version = "=0.13.5", default-features = false }
tokio = { version = "=1.53.2", features = ["rt-multi-thread", "macros"] }
warp = { version = "=0.4.3", default-features = false, features = ["server"] }
