[package]
name = "tl_ex"
version = "0.1.0"
edition = "2021"
publish = false

[dependencies]
actix-web = "4"
async-trait = "0.1"
clap = { version = "4", features = ["derive"] }
env_logger = "0.11"
log = "0.4"
reqwest = { version = "0.12", default-features = false, features = ["json", "rustls-tls"] }
rustemon = "*"
serde = { version = "1", features = ["derive"] }
thiserror = "2"
