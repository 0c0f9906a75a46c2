[package]
name = "session_slots"
version = "0.1.0"
edition = "2021"
publish = false

[dependencies]
serde_json = "*"
lz4_flex = "*"
tokio = { version = "*", features = ["macros", "rt-multi-thread"] }
