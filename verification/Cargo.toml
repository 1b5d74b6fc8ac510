[package]
name = "network_tool"
version = "0.1.0"
edition = "2021"
publish = false

[dependencies]
if-addrs = "*"
mac_address = "*"
tokio = { version = "*", features = ["rt", "rt-multi-thread", "net", "time"] }
actix-web = "*"
actix-cors = "*"
serde = { version = "*", features = ["derive"] }
log = "*"
simplelog = "*"
chrono = "*"
single-instance = "*"
thiserror = "*"
