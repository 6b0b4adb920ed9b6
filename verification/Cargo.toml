[package]
name = "fit_transcoder"
version = "0.1.0"
edition = "2021"
publish = false

[dependencies]
uuid = { version = "=1.27.0", features = ["v4"] }
fit-rust = "=0.1.8"
binrw = "=0.13.4"
polyline = "=0.11.0"
serde = { version = "=1.0.229", features = ["derive"] }
serde_json = "=1.0.151"
reqwest = { version = "=0.13.5", features = ["form", "json"] }
tokio = { version = "=1.53.2", features = ["macros", "rt-multi-thread"] }
clap = { version = "=4.6.7", features = ["derive"] }
walkdir = "=2.5.0"
zip = "=8.6.0"
