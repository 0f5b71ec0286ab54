[package]
name = "termide"
version = "0.1.0"
edition = "2021"
publish = false

[dependencies]
crossterm = "0.27"
lazy_static = "1"
rand = "0.8"
tokio = { version = "1", features = ["sync"] }
unicode-width = "0.1"
