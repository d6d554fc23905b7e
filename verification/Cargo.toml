[package]
name = "session_broker"
version = "0.1.0"
edition = "2021"
publish = false

[dependencies]
async-std = { version = "=1.13.2", features = ["attributes"] }
bcrypt = "=0.19.3"
serde = { version = "=1.0.229", features = ["derive"] }
tide = "=0.16.0"
time = "=0.2.27"
uuid = { version = "=1.29.0", features = ["v4"] }
