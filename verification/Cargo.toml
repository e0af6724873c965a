[package]
name = "file_chooser_portal"
version = "0.1.0"
edition = "2021"
publish = false

[dependencies]
http = "0.2"
log = "0.4"
env_logger = "0.10"
rfd = "0.12"
tokio = { version = "1", features = ["macros", "rt-multi-thread"] }
zbus = { version = "3", default-features = false, features = ["tokio"] }
