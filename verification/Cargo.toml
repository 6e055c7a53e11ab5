[package]
name = "chess_core"
version = "0.1.0"
edition = "2021"
publish = false

[dependencies]
serde = { version = "1", features = ["derive"] }
http = "0.2"
tide = "0.16"
tokio = { version = "1", features = ["macros", "rt-multi-thread"] }
