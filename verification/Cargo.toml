[package]
name = "lmtt"
version = "0.1.0"
edition = "2021"
publish = false

[dependencies]
serde_json = "*"
which = "*"
sha2 = "*"
handlebars = "*"
tokio = { version = "*", features = ["rt-multi-thread", "macros", "fs", "process", "time"] }
dirs = "*"
toml = "*"
serde = { version = "*", features = ["derive"] }
clap = { version = "*", features = ["derive"] }
