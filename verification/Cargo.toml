[package]
name = "task_notify"
version = "0.1.0"
edition = "2021"
publish = false

[dependencies]
serde_json = "*"
jiff = "*"
axum = "*"
tokio = { version = "*", features = ["macros", "rt-multi-thread", "net"] }
flate2 = "*"
pushover-rs = "*"
