[package]
name = "okx"
version = "0.1.0"
edition = "2021"
publish = false

[dependencies]
ring = "*"
base64 = "*"
time = "*"
chrono = "*"
serde = { version = "*", features = ["derive"] }
serde_json = "*"
reqwest = { version = "*", default-features = false, features = ["json"] }
tokio = { version = "*", features = ["rt-multi-thread", "macros", "time", "sync", "net"] }
tokio-tungstenite = "*"
futures-util = "*"
async-trait = "*"
http = "*"
log = "*"
once_cell = "*"
rust_decimal = "*"
thiserror = "*"
anyhow = "*"
simple_logger = "*"
