[package]
name = "switchboard"
version = "0.1.0"
edition = "2021"
publish = false

[dependencies]
async-trait = "0.1"
atty = "0.2"
axum = "0.8"
chrono = { version = "0.4", default-features = false, features = ["clock", "std", "serde"] }
clap = { version = "4", features = ["derive"] }
config = { version = "0.14", default-features = false, features = ["toml"] }
dialoguer = { version = "0.11", default-features = false }
reqwest = { version = "0.12", default-features = false, features = ["json"] }
serde = { version = "1", features = ["derive"] }
serde_json = "1"
thiserror = "1"
tokio = { version = "1", features = ["macros", "rt-multi-thread", "net"] }
toml = "0.8"
uuid = { version = "1", features = ["v4", "serde"] }
