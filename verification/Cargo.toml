[package]
name = "gust"
version = "0.1.0"
edition = "2021"
publish = false

[dependencies]
clap = { version = "4", features = ["derive"] }
colored = "2"
confy = "0.5"
console = "0.15"
dialoguer = { version = "0.11", features = ["fuzzy-select"] }
dirs-next = "2"
serde = { version = "1", features = ["derive"] }
serde_json = "1"
