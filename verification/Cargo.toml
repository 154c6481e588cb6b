[package]
name = "muchat"
version = "0.1.0"
edition = "2021"
publish = false

[dependencies]
async-stream = "0.3"
chrono = { version = "0.4", features = ["serde"] }
futures = "0.3"
libc = "0.2"
nucleo = "0.5"
serde = { version = "1", features = ["derive"] }
serde_json = "1"
thiserror = "1"
tokio = { version = "1", features = ["macros", "net", "rt", "rt-multi-thread", "signal", "sync", "time"] }
tokio-tungstenite = "0.24"
