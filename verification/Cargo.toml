[package]
name = "restaurant"
version = "0.1.0"
edition = "2021"
publish = false

[dependencies]
chrono = { version = "0.4", default-features = false, features = ["clock", "std", "serde"] }
rand = "0.8"
sha256 = { version = "1", default-features = false }
serde = { version = "1", features = ["derive"] }
tide = "0.16"
async-std = { version = "1", features = ["attributes"] }
postgres = { version = "0.19", features = ["with-chrono-0_4"] }
postgres-types = { version = "0.2", features = ["derive", "with-chrono-0_4"] }
config = { version = "0.11", default-features = false, features = ["toml"] }
tokio = { version = "1", features = ["rt-multi-thread", "macros"] }
threadpool = "1"
reqwest = { version = "0.11", default-features = false, features = ["json"] }
async-trait = "0.1"
