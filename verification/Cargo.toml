[package]
name = "zip_weather"
version = "0.1.0"
edition = "2021"
publish = false

[dependencies]
colored = "*"
reqwest = { version = "*", features = ["json"] }
serde = { version = "*", features = ["derive"] }
tokio = { version = "*", features = ["macros", "rt-multi-thread"] }
