[package]
name = "single_mode_shortcuts"
version = "0.1.0"
edition = "2021"
publish = false

[dependencies]
anyhow = "1"
clap = { version = "4", features = ["derive"] }
iced = "0.8"
once_cell = "1"
serde = { version = "1", features = ["derive"] }
