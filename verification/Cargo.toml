[package]
name = "kreta_proxy"
version = "0.1.0"
edition = "2021"
publish = false

[dependencies]
actix-rt = "2"
actix-web = "4"
chrono = "0.4"
derive_more = { version = "*", features = ["display"] }
env_logger = "*"
log = "0.4"
reqwest = { version = "0.12", features = ["json"] }
serde = { version = "1", features = ["derive"] }
