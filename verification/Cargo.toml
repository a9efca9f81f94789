[package]
name = "typewriter"
version = "0.1.0"
edition = "2021"
publish = false

[dependencies]
rand = "0.8"
crossterm = "0.27"
rodio = "0.17"
tokio = { version = "1", features = ["macros", "rt-multi-thread"] }
