[package]
name = "move_preview"
version = "0.1.0"
edition = "2021"
publish = false

[dependencies]
smallvec = "*"
crossterm = { version = "*", features = ["event-stream"] }
futures = "*"
reqwest = { version = "*", default-features = false, features = ["json"] }
serde = { version = "*", features = ["derive"] }
serde_json = "*"
tokio = { version = "*", features = ["macros", "rt-multi-thread"] }
tracing = "*"
tracing-subscriber = "*"
