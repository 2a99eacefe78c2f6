[package]
name = "wasm_exec"
version = "0.1.0"
edition = "2021"
publish = false

[dependencies]
wasmi = "*"
serde = { version = "*", features = ["derive"] }
serde_json = "*"
tide = "*"
async-std = { version = "*", features = ["attributes"] }
jsonwebtoken = "*"
chrono = "*"
dotenv = "*"
tracing = "*"
tracing-subscriber = "*"
