[package]
name = "seatwatch"
version = "0.1.0"
edition = "2021"
publish = false

[dependencies]
serde_json = "=1.0.151"
takecell = "=0.1.1"
teloxide = { version = "=0.17.0", default-features = false }
tokio = { version = "=1.53.2", features = ["macros", "rt-multi-thread"] }
