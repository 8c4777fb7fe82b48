[package]
name = "deepwell"
version = "0.1.0"
edition = "2021"
publish = false

[dependencies]
anyhow = "=1.0.104"
async-std = { version = "=1.13.2", features = ["attributes"] }
clap = "=4.6.7"
rust-otp = "=2.0.0"
sea-orm = { version = "=2.0.4", default-features = false, features = ["macros"] }
serde = { version = "=1.0.229", features = ["derive"] }
serde_json = "=1.0.154"
subtle = "=2.6.1"
tide = { version = "=0.16.0", default-features = false, features = ["h1-server", "logger"] }
time = "=0.3.55"
toml = "=0.5.11"
