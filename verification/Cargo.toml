[package]
name = "rpg"
version = "0.1.0"
edition = "2021"
publish = false

[dependencies]
colored = "*"
homedir = "*"
read_input = "*"
reqwest = { version = "*", features = ["json"] }
serde = { version = "*", features = ["derive"] }
serde_json = "*"
tokio = { version = "*", features = ["full"] }
