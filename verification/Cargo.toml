[package]
name = "bunkr_uploader"
version = "0.1.0"
edition = "2021"
publish = false

[dependencies]
base64 = "*"
rand = "*"
uuid = { version = "*", features = ["v4"] }
serde = { version = "*", features = ["derive"] }
serde_json = "*"
reqwest = { version = "*", features = ["json", "multipart"] }
tokio = { version = "*", features = ["macros", "rt-multi-thread"] }
indicatif = "*"
dialoguer = "*"
colored = "*"
clap = { version = "*", features = ["derive"] }
human-panic = "*"
