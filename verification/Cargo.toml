[package]
name = "rune_find"
version = "0.1.0"
edition = "2021"
publish = false

[dependencies]
hex = "0.4"
reqwest = { version = "0.12", features = ["json"] }
serde = { version = "1", features = ["derive"] }
tokio = { version = "1", features = ["macros", "rt-multi-thread"] }
titan-client = "*"
