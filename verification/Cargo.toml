[package]
name = "coconut_bot"
version = "0.1.0"
edition = "2021"
publish = false

[dependencies]
serde_json = "*"
url = "*"
tokio = { version = "*", features = ["rt-multi-thread", "macros", "sync", "time"] }
tokio-tungstenite = "*"
futures-util = "*"
clap = "*"
dotenv = "*"
