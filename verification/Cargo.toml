[package]
name = "honkers_launcher"
version = "0.1.0"
edition = "2021"
publish = false

[dependencies]
anyhow = "1"
human-panic = "2"
open = "5"
tokio = { version = "1", features = ["rt"] }
tracing = "0.1"
tracing-subscriber = "0.3"
unic-langid = { version = "0.9", features = ["macros"] }
