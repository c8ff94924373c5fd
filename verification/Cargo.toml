[package]
name = "akkurate"
version = "0.1.0"
edition = "2021"
publish = false

[dependencies]
anyhow = "*"
arboard = "*"
clap = { version = "*", features = ["derive"] }
directories = "*"
reqwest = { version = "*", features = ["blocking"] }
serde = { version = "*", features = ["derive"] }
toml = "*"
