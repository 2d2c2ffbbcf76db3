[package]
name = "fusabi_tui"
version = "0.1.0"
edition = "2021"
publish = false

[dependencies]
unicode-width = "*"
serde = { version = "*", features = ["derive"] }
toml = "*"
