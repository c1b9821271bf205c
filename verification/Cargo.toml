[package]
name = "cao_sim_client"
version = "0.1.0"
edition = "2021"
publish = false

[dependencies]
serde_json = "1"
serde = { version = "1", features = ["derive"] }
tokio = { version = "1", features = ["rt-multi-thread", "time"] }
async-tungstenite = { version = "*", features = ["tokio-runtime"] }
tungstenite = "*"
crossbeam = "0.8"
futures = "0.3"
surf = "2"
anyhow = "1"
tracing = "0.1"
