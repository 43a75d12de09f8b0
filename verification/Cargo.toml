[package]
name = "langstar"
version = "0.1.0"
edition = "2021"
publish = false

[dependencies]
urlencoding = "*"
serde = { version = "*", features = ["derive"] }
serde_json = "*"
toml = "*"
dirs = "*"
clap = { version = "*", features = ["derive"] }
colored = "*"
tabled = "*"
reqwest = { version = "*", default-features = false, features = ["json"] }
tokio = { version = "*", features = ["macros", "rt-multi-thread", "time"] }
