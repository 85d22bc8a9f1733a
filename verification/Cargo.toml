[package]
name = "dbc_bot"
version = "0.1.0"
edition = "2021"
publish = false

[dependencies]
poise = "0.5.7"
chrono = "0.4"
image = { version = "0.24", default-features = false, features = ["png", "jpeg", "webp", "gif"] }
mongodb = "2.8"
reqwest = { version = "0.11", default-features = false, features = ["json", "rustls-tls"] }
serde = { version = "1", features = ["derive"] }
serde_json = "1"
tokio = { version = "1", features = ["macros", "rt-multi-thread", "fs", "io-util", "time", "signal"] }
futures = "0.3"
tracing = "0.1"
tracing-subscriber = "0.3"
dotenv = "0.15"
strum = "0.25"
strum_macros = "0.25"
base64 = "0.21"
bytes = "1"
async-trait = "0.1"
