[package]
name = "pin_blog"
version = "0.1.0"
edition = "2021"
publish = false

[dependencies]
axum = "*"
env_logger = "*"
log = "*"
markdown = "*"
maud = { version = "*", features = ["axum"] }
tokio = { version = "*", features = ["fs", "macros", "net", "process", "rt-multi-thread", "time"] }
