[package]
name = "dt_core"
version = "0.1.0"
edition = "2021"
publish = false

[dependencies]
uuid = { version = "1", features = ["v4"] }
serde_json = "1"
memmap2 = "0.9"
fs2 = "0.4"
reqwest = { version = "0.12", default-features = false, features = ["blocking", "json"] }
