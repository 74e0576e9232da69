[package]
name = "funky_lesson_core"
version = "0.1.0"
edition = "2021"
publish = false

[dependencies]
aes = "0.8"
ecb = "0.1"
base64-simd = "0.8"
serde = { version = "1", features = ["derive"] }
serde_json = "1"
reqwest = { version = "0.12", default-features = false, features = ["json", "rustls-tls"] }
tokio = { version = "1", features = ["rt-multi-thread", "macros", "time"] }
futures = "0.3"
