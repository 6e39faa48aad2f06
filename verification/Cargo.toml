[package]
name = "candidate_api"
version = "0.1.0"
edition = "2021"
publish = false

[dependencies]
chrono = "*"
salvo = { version = "*", features = ["logging"] }
serde = { version = "*", features = ["derive"] }
tokio = { version = "*", features = ["macros", "rt-multi-thread"] }
tracing-subscriber = "*"
