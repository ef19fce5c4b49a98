[package]
name = "shotliner_corelib"
version = "0.1.0"
edition = "2021"
publish = false

[dependencies]
uuid = { version = "*", features = ["v4"] }
chrono = "*"
screenplay-doc-parser-rs = "*"
