[package]
name = "tally_pipeline"
version = "0.1.0"
edition = "2021"
publish = false

[dependencies]
futures = "*"
mongodb = "*"
reqwest = { version = "*", features = ["json"] }
reqwest-middleware = "*"
reqwest-retry = "*"
serde = { version = "*", features = ["derive"] }
tokio = { version = "*", features = ["macros", "rt-multi-thread"] }
