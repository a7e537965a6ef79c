[package]
name = "arc_signal"
version = "0.1.0"
edition = "2021"
publish = false

[dependencies]
uuid = "1"
rand = "0.9"
tokio = { version = "1", features = ["rt"] }
lazy_static = "1"
async-trait = "0.1"
