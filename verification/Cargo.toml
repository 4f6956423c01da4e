[package]
name = "git_diff_buffers"
version = "0.1.0"
edition = "2021"
publish = false

[dependencies]
anyhow = "1"
futures = "0.3"
log = "0.4"
postage = { version = "0.5", features = ["futures-traits"] }
serde = { version = "1", features = ["derive"] }
