[package]
name = "invite_runner"
version = "0.1.0"
edition = "2021"
publish = false

[dependencies]
fern = "0.6"
futures = "0.3"
humantime = "2"
log = "0.4"
rand = "0.8"
reqwest = { version = "0.11", features = ["json"] }
serde_json = "1"
tokio = { version = "1", features = ["full"] }
