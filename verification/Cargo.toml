[package]
name = "serde_arrow"
version = "0.1.0"
edition = "2021"
publish = false

[dependencies]
chrono = "0.4"
serde = "1"
arrow2 = "0.18"
