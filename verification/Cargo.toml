[package]
name = "certgen"
version = "0.1.0"
edition = "2021"
publish = false

[dependencies]
openssl = "*"
log = "*"
serde = { version = "*", features = ["derive"] }
serde_yaml = "*"
dotenv = "*"
env_logger = "*"
