[package]
name = "currency_service"
version = "0.1.0"
edition = "2021"
publish = false

[dependencies]
dotenvy = "0.15"
prost = "0.13"
reqwest = "0.12"
serde = { version = "1", features = ["derive"] }
serde_json = "1"
tokio = { version = "1", features = ["macros", "rt-multi-thread", "time"] }
tonic = "0.12"
tonic-health = "0.12"
