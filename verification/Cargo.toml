[package]
name = "pleme-config"
version = "0.1.0"
edition = "2021"
publish = false

[dependencies]
serde = { version = "1", features = ["derive"] }
envy = "0.4"
thiserror = "1"
url = "2"
config = { version = "0.14", default-features = false, features = ["yaml"] }
validator = "0.18"
