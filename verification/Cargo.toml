[package]
name = "mast_remarkable"
version = "0.1.0"
edition = "2021"
publish = false

[dependencies]
chrono = "0.4"
rand = "0.8"
serde = { version = "1", features = ["derive"] }
serde_json = "1"
image = { version = "*", default-features = false, features = ["png"] }
libremarkable = "*"
easy-http-request = "*"
chinese-lunisolar-calendar = "*"
log = "0.4"
env_logger = "*"
